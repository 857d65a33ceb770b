use vstd::prelude::*;
use std::marker::PhantomData;
use std::mem::ManuallyDrop;
use std::ops::Deref;
use std::sync::Arc;
use std::task::Waker;

verus! {

/// std's waker, carried through the library as an opaque value.
#[verifier::external_type_specification]
#[verifier::external_body]
pub struct ExWaker(Waker);

/// Something a task's waker wakes, through the reference counted handle
/// the waker holds.
pub trait ArcWake: Send + Sync {
    /// Wakes the value behind `arc_self`, leaving the handle to the caller.
    fn wake_by_ref(arc_self: &Arc<Self>);

    /// Wakes the value behind `arc_self`, consuming the handle.
    fn wake(self: Arc<Self>) {
        Self::wake_by_ref(&self)
    }
}

/// A waker lent for the lifetime `'a`: it is never dropped through this
/// handle, so lending it does not touch the reference count of what it
/// wakes.
pub struct WakerRef<'a> {
    waker: ManuallyDrop<Waker>,
    _has: PhantomData<&'a ()>,
}

impl<'a> WakerRef<'a> {
    /// The lent waker.
    pub closed spec fn spec_waker(&self) -> Waker {
        self.waker@
    }

    /// Lends `waker`, which the handle will not drop.
    pub fn new_uowned(waker: ManuallyDrop<Waker>) -> (r: Self)
        ensures
            r.spec_waker() == waker@,
    {
        Self { waker, _has: PhantomData }
    }
}

impl Deref for WakerRef<'_> {
    type Target = Waker;

    fn deref(&self) -> (r: &Waker)
        ensures
            *r == self.spec_waker(),
    {
        self.waker.deref()
    }
}

} // verus!
