//! The take-once handle: a shared, lock-protected slot whose value is handed
//! out at most once.
//!
//! The slot is an `Option`. One take on it is `take_step`; `take_run` is what
//! a sequence of takes hands out, and `take_once` states that only the first
//! of them can yield the value. The handle keeps the slot under a lock and
//! performs each take while it holds the lock.

use crate::types::StreamSocket;
use core::future::Future;
use std::sync::Arc;
use vstd::prelude::*;
use vstd::rwlock::{RwLock, RwLockPredicate};

verus! {

/// One take on a slot: what comes out, and what the slot holds afterwards.
pub open spec fn take_step<T>(slot: Option<T>) -> (Option<T>, Option<T>) {
    (slot, None)
}

/// What `n` takes in a row hand out, starting from a slot that holds `slot`.
pub open spec fn take_run<T>(slot: Option<T>, n: nat) -> Seq<Option<T>>
    decreases n,
{
    if n == 0 {
        Seq::empty()
    } else {
        seq![take_step(slot).0] + take_run(take_step(slot).1, (n - 1) as nat)
    }
}

/// Takes out of an empty slot hand out nothing, however many they are.
pub proof fn lemma_empty_slot_stays_empty<T>(n: nat)
    ensures
        take_run(None::<T>, n).len() == n,
        forall|i: int| 0 <= i < n ==> take_run(None::<T>, n)[i] is None,
    decreases n,
{
    if n > 0 {
        lemma_empty_slot_stays_empty::<T>((n - 1) as nat);
    }
}

/// Take-once: of any number of takes on a slot that holds `v`, the first
/// hands out `v` and every later one hands out nothing.
pub proof fn take_once<T>(v: T, n: nat)
    requires
        n >= 1,
    ensures
        take_run(Some(v), n).len() == n,
        take_run(Some(v), n)[0] == Some(v),
        forall|i: int| 1 <= i < n ==> take_run(Some(v), n)[i] is None,
{
    lemma_empty_slot_stays_empty::<T>((n - 1) as nat);
}

/// Takes what the slot holds and leaves it empty.
pub fn take_slot<T>(slot: &mut Option<T>) -> (r: Option<T>)
    ensures
        (r, *final(slot)) == take_step(*old(slot)),
{
    slot.take()
}

/// What the slot of a handle may hold at any time: nothing, or the value the
/// handle was made with.
pub struct NoneOr<T> {
    pub value: Option<T>,
}

impl<T> RwLockPredicate<Option<T>> for NoneOr<T> {
    open spec fn inv(self, v: Option<T>) -> bool {
        v is None || v == self.value
    }
}

/// A shared slot that holds at most one value, taken out at most once.
///
/// Clones of a handle share the slot. A handle may be sent to another thread
/// or shared with it where `T` is both `Send` and `Sync`.
pub type Handle<T> = Arc<RwLock<Option<T>, NoneOr<T>>>;

/// The value a handle was made with.
pub open spec fn wrapped_value<T>(h: Handle<T>) -> Option<T> {
    h.pred().value
}

/// Making a handle from an optional value.
pub trait HandleExt {
    type HandleInner;

    fn wrap(self) -> Handle<Self::HandleInner>;
}

impl<T> HandleExt for Option<T> {
    type HandleInner = T;

    /// A handle whose slot holds `self`.
    fn wrap(self) -> (h: Handle<T>)
        ensures
            wrapped_value(h) == self,
    {
        let ghost pred = NoneOr { value: self };
        Arc::new(RwLock::new(self, Ghost(pred)))
    }
}

/// Taking the value out of a handle.
pub trait HandleExt2 {
    type Target;

    /// Lock, unwrap and take.
    fn lut(&self) -> Self::Target;
}

impl<T> HandleExt2 for Handle<T> {
    type Target = Option<T>;

    /// Performs one take on the slot while holding the lock. Whatever comes
    /// out is the value the handle was made with.
    ///
    /// What the slot holds when the lock is acquired is decided by the
    /// takes that were made before, by this holder or by another, so the
    /// contract says what holds of every outcome. `take_slot` says what one
    /// take returns and leaves behind for each content of the slot.
    fn lut(&self) -> (r: Option<T>)
        ensures
            r is None || r == wrapped_value(*self),
    {
        let (mut slot, guard) = self.acquire_write();
        let r = take_slot(&mut slot);
        guard.release_write(slot);
        r
    }
}

/// What is to be done for a task handle.
#[derive(Debug)]
pub enum TaskRun<T> {
    /// The computation that was taken: run it to its end.
    Run(T),
    /// The task was taken before, or the handle never held one: there is
    /// nothing to run, which is no error.
    Idle,
}

/// What a take on the slot of a task handle leads to.
pub open spec fn task_run_of<T>(taken: Option<T>) -> TaskRun<T> {
    match taken {
        Some(task) => TaskRun::Run(task),
        None => TaskRun::Idle,
    }
}

/// What is to be done, given what a take on the slot of a task handle has
/// handed out: a task that came out is to be run, and an empty slot means
/// that there is nothing to do.
pub fn task_run<T>(taken: Option<T>) -> (r: TaskRun<T>)
    ensures
        r == task_run_of(taken),
{
    match taken {
        Some(task) => TaskRun::Run(task),
        None => TaskRun::Idle,
    }
}

/// Takes the task of a handle for running. The caller runs what it is given
/// to its end, and reports an idle handle without failing.
///
/// Whether the task is still there is decided by the takes that were made
/// on the handle before, by this holder or by another. So the contract says
/// what holds of every outcome; `task_run` says what is returned for each
/// outcome of the take.
pub fn run_task<T>(h: &Handle<T>) -> (r: TaskRun<T>)
    ensures
        r is Idle || r == task_run_of(wrapped_value(*h)),
{
    task_run(h.lut())
}

/// Making a task handle from a deferred computation.
pub trait TaskHandleExt: Sized {
    fn wrap(self) -> Handle<Self>;
}

impl<F: Future<Output = ()> + Send + 'static> TaskHandleExt for F {
    /// A handle whose slot holds the computation, ready to be taken and run
    /// once.
    fn wrap(self) -> (h: Handle<F>)
        ensures
            wrapped_value(h) == Some(self),
    {
        Some(self).wrap()
    }
}

impl<R, W, H> StreamSocket<R, W, H> {
    /// A handle whose slot holds the socket.
    pub fn wrap(self) -> (h: Handle<StreamSocket<R, W, H>>)
        ensures
            wrapped_value(h) == Some(self),
    {
        Some(self).wrap()
    }
}

} // verus!
