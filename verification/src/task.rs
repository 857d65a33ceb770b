use vstd::prelude::*;

verus! {

/// Where a spawned task's future stands.
pub enum FutureState<F, T> {
    /// The future has not completed yet.
    Running(F),
    /// The future completed with this output, not yet read.
    Completed(T),
    /// The output was read, or the task was dropped.
    Consumed,
}

/// What a spawned task's runner and join handle share: where the future
/// stands, and the waker of the task awaiting the output, if one asked for it.
pub struct CellView<F, T, W> {
    pub state: FutureState<F, T>,
    pub join_waker: Option<W>,
}

impl<F, T, W> CellView<F, T, W> {
    /// What the future completing with `output` does: a running future's
    /// output is stored and the waker of the awaiting task, if any, is taken
    /// out to be woken; a future no longer running stays as it was.
    pub open spec fn after_completion(self, output: T) -> (CellView<F, T, W>, Option<W>) {
        match self.state {
            FutureState::Running(_) => (
                CellView { state: FutureState::Completed(output), join_waker: None },
                self.join_waker,
            ),
            _ => (self, None),
        }
    }

    /// What a read of the output by the task whose waker is `waker` does:
    /// that task becomes the one to wake on completion (a stored waker that
    /// already wakes the same task, as `will_wake` tells, is kept); a
    /// completed output is handed out, leaving the cell consumed.
    pub open spec fn after_read(self, waker: W, will_wake: bool) -> (CellView<F, T, W>, Option<T>) {
        let join_waker = if self.join_waker is Some && will_wake {
            self.join_waker
        } else {
            Some(waker)
        };
        match self.state {
            FutureState::Completed(output) => (
                CellView { state: FutureState::Consumed, join_waker },
                Some(output),
            ),
            _ => (CellView { state: self.state, join_waker }, None),
        }
    }

    /// What dropping the task does: future or output and waker are let go.
    pub open spec fn after_drop(self) -> CellView<F, T, W> {
        CellView { state: FutureState::Consumed, join_waker: None }
    }
}

/// The state of a spawned task that its runner and its join handle share:
/// the future or its output, and the waker of the task that awaits the
/// output.
pub struct Cell<F, T, W> {
    waker: Option<W>,
    future_state: FutureState<F, T>,
}

impl<F, T, W> View for Cell<F, T, W> {
    type V = CellView<F, T, W>;

    closed spec fn view(&self) -> CellView<F, T, W> {
        CellView { state: self.future_state, join_waker: self.waker }
    }
}

impl<F, T, W> Cell<F, T, W> {
    /// Lets go of the future or output and of the waker.
    pub fn drop(&mut self)
        ensures
            final(self)@ == old(self)@.after_drop(),
    {
        self.future_state = FutureState::Consumed;
        self.waker = None;
    }

    /// Whether the future completed and its output was not read yet.
    pub fn is_completed(&self) -> (r: bool)
        ensures
            r == self@.state is Completed,
    {
        match &self.future_state {
            FutureState::Completed(_) => true,
            _ => false,
        }
    }

    /// The waker of the task awaiting the output, if one asked for it.
    pub fn stored_waker(&self) -> (r: Option<&W>)
        ensures
            r is Some <==> self@.join_waker is Some,
            r is Some ==> *r.unwrap() == self@.join_waker.unwrap(),
    {
        self.waker.as_ref()
    }

    /// The future, while it is running, to be polled in place.
    pub fn future_mut(&mut self) -> (r: Option<&mut F>)
        ensures
            old(self)@.state is Running <==> r is Some,
            r is Some ==> *r.unwrap() == old(self)@.state->Running_0
                && final(self)@.state == FutureState::<F, T>::Running(*final(r.unwrap())),
            final(self)@.join_waker == old(self)@.join_waker,
            r is None ==> final(self)@ == old(self)@,
    {
        match &mut self.future_state {
            FutureState::Running(f) => Some(f),
            _ => None,
        }
    }

    /// Records that the future completed with `output`; returns the waker to
    /// wake, if any. See [`Cell::after_completion`].
    pub fn complete(&mut self, output: T) -> (woken: Option<W>)
        ensures
            (final(self)@, woken) == old(self)@.after_completion(output),
    {
        match &self.future_state {
            FutureState::Running(_) => {
                self.future_state = FutureState::Completed(output);
                let w = self.waker.take();
                w
            },
            _ => None,
        }
    }

    /// Reads the output on behalf of the task whose waker is `waker`;
    /// `will_wake` tells whether the stored waker, if any, already wakes that
    /// task. See [`Cell::after_read`].
    pub fn try_read_output(&mut self, waker: W, will_wake: bool) -> (r: Option<T>)
        ensures
            (final(self)@, r) == old(self)@.after_read(waker, will_wake),
    {
        let keep = self.waker.is_some() && will_wake;
        if !keep {
            self.waker = Some(waker);
        }
        if self.is_completed() {
            let mut state = FutureState::Consumed;
            std::mem::swap(&mut state, &mut self.future_state);
            match state {
                FutureState::Completed(output) => Some(output),
                _ => None,
            }
        } else {
            None
        }
    }
}

/// A spawned task's output is handed out exactly once: after the running
/// future completes with `output`, the first read hands out `output` and
/// leaves the task consumed, and any later read hands out nothing.
pub proof fn law_output_read_once<F, T, W>(
    c: CellView<F, T, W>,
    output: T,
    first_waker: W,
    first_will_wake: bool,
    second_waker: W,
    second_will_wake: bool,
)
    requires
        c.state is Running,
    ensures
        ({
            let done = c.after_completion(output).0;
            let first = done.after_read(first_waker, first_will_wake);
            let second = first.0.after_read(second_waker, second_will_wake);
            &&& first.1 == Some(output)
            &&& first.0.state is Consumed
            &&& second.1 is None
            &&& second.0.state is Consumed
        }),
{
}

/// A task that reads a spawned task's output before it is ready gets
/// nothing, and is the one woken when the output arrives: the read leaves
/// its waker (or one that wakes the same task) with the spawned task, and
/// completion hands exactly that waker out to be woken.
pub proof fn law_completion_wakes_reader<F, T, W>(c: CellView<F, T, W>, waker: W, will_wake: bool, output: T)
    requires
        c.state is Running,
    ensures
        ({
            let read = c.after_read(waker, will_wake);
            let done = read.0.after_completion(output);
            &&& read.1 is None
            &&& read.0.join_waker is Some
            &&& (!will_wake || c.join_waker is None) ==> read.0.join_waker == Some(waker)
            &&& (will_wake && c.join_waker is Some) ==> read.0.join_waker == c.join_waker
            &&& done.1 == read.0.join_waker
            &&& done.0.state == FutureState::<F, T>::Completed(output)
            &&& done.0.join_waker is None
        }),
{
}

/// Awaiting a spawned task through its join handle: a read before
/// completion is pending and leaves the reader's waker with the task; the
/// completion hands that waker out once, to be woken, and keeps no waker, so
/// no later completion wakes it again; the next read hands out the output.
pub proof fn law_join_handle_reads_after_completion<F, T, W>(
    c: CellView<F, T, W>,
    first_waker: W,
    first_will_wake: bool,
    output: T,
    late_output: T,
    second_waker: W,
    second_will_wake: bool,
)
    requires
        c.state is Running,
        c.join_waker is None,
    ensures
        ({
            let first = c.after_read(first_waker, first_will_wake);
            let done = first.0.after_completion(output);
            let second = done.0.after_read(second_waker, second_will_wake);
            &&& first.1 is None
            &&& done.1 == Some(first_waker)
            &&& done.0.join_waker is None
            &&& done.0.after_completion(late_output).1 is None
            &&& second.1 == Some(output)
        }),
{
}

/// A dropped task hands out no output and ignores a late completion.
pub proof fn law_dropped_task_is_inert<F, T, W>(c: CellView<F, T, W>, output: T, waker: W, will_wake: bool)
    ensures
        c.after_drop().after_read(waker, will_wake).1 is None,
        c.after_drop().after_completion(output) == (c.after_drop(), None::<W>),
{
}

/// A spawned task: the handle of the executor that runs it and the state it
/// shares with its join handle.
pub struct RawTask<F, T, W, S> {
    spawner: S,
    cell: Cell<F, T, W>,
}

impl<F, T, W, S> RawTask<F, T, W, S> {
    /// The handle of the executor that runs the task.
    pub closed spec fn spec_spawner(&self) -> S {
        self.spawner
    }

    /// The task's shared state.
    pub closed spec fn spec_cell(&self) -> Cell<F, T, W> {
        self.cell
    }

    /// A task that runs `future` on the executor behind `spawner`, with no
    /// task awaiting its output yet.
    pub fn new(future: F, spawner: S) -> (t: RawTask<F, T, W, S>)
        ensures
            t.spec_cell()@ == (CellView::<F, T, W> { state: FutureState::Running(future), join_waker: None }),
            t.spec_spawner() == spawner,
    {
        RawTask { cell: Cell { future_state: FutureState::Running(future), waker: None }, spawner }
    }

    /// The handle of the executor that runs the task.
    pub fn spawner(&self) -> (r: &S)
        ensures
            *r == self.spec_spawner(),
    {
        &self.spawner
    }

    /// The task's shared state.
    pub fn cell(&self) -> (r: &Cell<F, T, W>)
        ensures
            *r == self.spec_cell(),
    {
        &self.cell
    }

    /// The task's shared state, to poll the future or record its output.
    pub fn cell_mut(&mut self) -> (r: &mut Cell<F, T, W>)
        ensures
            *r == old(self).spec_cell(),
            final(self).spec_cell() == *final(r),
            final(self).spec_spawner() == old(self).spec_spawner(),
    {
        &mut self.cell
    }

    /// Reads the output on behalf of the awaiting task; see
    /// [`Cell::try_read_output`].
    pub fn try_read_output(&mut self, waker: W, will_wake: bool) -> (r: Option<T>)
        ensures
            (final(self).spec_cell()@, r) == old(self).spec_cell()@.after_read(waker, will_wake),
            final(self).spec_spawner() == old(self).spec_spawner(),
    {
        self.cell.try_read_output(waker, will_wake)
    }

    /// Lets go of the task's future or output and of the awaiting waker.
    pub fn drop_task(&mut self)
        ensures
            final(self).spec_cell()@ == old(self).spec_cell()@.after_drop(),
            final(self).spec_spawner() == old(self).spec_spawner(),
    {
        self.cell.drop();
    }
}

/// The handle through which a task awaits the output of a spawned task.
pub struct JoinHandle<R> {
    raw_task: R,
}

impl<R> JoinHandle<R> {
    /// The spawned task.
    pub closed spec fn spec_raw_task(&self) -> R {
        self.raw_task
    }

    /// The handle of the spawned task `raw_task`.
    pub fn new(raw_task: R) -> (h: JoinHandle<R>)
        ensures
            h.spec_raw_task() == raw_task,
    {
        JoinHandle { raw_task }
    }

    /// The spawned task.
    pub fn raw_task(&self) -> (r: &R)
        ensures
            *r == self.spec_raw_task(),
    {
        &self.raw_task
    }
}

} // verus!
