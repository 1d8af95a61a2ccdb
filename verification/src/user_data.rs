//! User-data wrappers: how the state of a script instance is shared with the engine, and
//! the policies by which the locking wrappers deal with contention.
//!
//! [`ArcData`] shares an immutable instance. The locking wrappers hold their instance behind
//! a lock; [`lock_attempt`] decides how a lock is taken under a [`DeadlockPolicy`] and
//! [`lock_result`] what a failed attempt gives, and [`thread_check`] decides whether an
//! instance bound to one thread may be reached from another, [`borrow_result`] what a
//! failed borrow of it gives.

use std::sync::Arc;
use std::time::Duration;
use vstd::prelude::*;

verus! {

/// Trait for wrappers that can be mapped immutably.
pub trait MapRef {
    /// The type of the wrapped instance.
    type Target;

    /// The error given when the instance cannot be reached.
    type Err;

    /// The instance the wrapper holds.
    spec fn target(&self) -> Self::Target;

    /// Maps a `&T` to `U`. Called for methods that take `&self`.
    fn map<F, U>(&self, op: F) -> Result<U, Self::Err> where
        F: FnOnce(&Self::Target) -> U,

        requires
            op.requires((&self.target(),)),
    ;
}

/// Trait for wrappers that can be mapped mutably.
pub trait MapMut {
    /// The type of the wrapped instance.
    type Target;

    /// The error given when the instance cannot be reached.
    type Err;

    /// Maps a `&mut T` to `U`. Called for methods that take `&mut self`.
    fn map_mut<F, U>(&self, op: F) -> Result<U, Self::Err> where
        F: FnOnce(&mut Self::Target) -> U;
}

/// Error type indicating that an operation can't fail: no value of it is ever made.
#[derive(Clone, Copy, Debug, PartialEq, Eq, PartialOrd, Ord, Hash)]
pub struct Infallible {
    _never: (),
}

/// Policies to deal with potential deadlocks.
///
/// As the engine allows mutable pointer aliasing, doing certain things in exported method
/// bodies may lead to the engine calling another method on `owner`, leading to another
/// locking attempt within the same thread. As there is no universal way to deal with such
/// situations, the behavior of locking wrappers can be customized using this enum.
#[derive(Clone, Copy, Debug, PartialEq, Eq, PartialOrd, Ord, Hash)]
pub enum DeadlockPolicy {
    /// Block on all locks. Deadlocks are possible.
    Allow,
    /// Never block on any locks. Methods will return Nil immediately if the lock isn't
    /// available. Deadlocks are prevented.
    Pessimistic,
    /// Block on locks for at most `Duration`. Methods return Nil on timeout. Deadlocks are
    /// prevented.
    Timeout(Duration),
}

/// Trait defining the options of a locking wrapper.
pub trait LockOptions {
    /// The deadlock policy of the wrapper.
    const DEADLOCK_POLICY: DeadlockPolicy;
}

/// Default lock policy that may change in future versions. Currently, it has a deadlock
/// policy of `Allow`.
#[derive(Clone, Copy, Debug, PartialEq, Eq, PartialOrd, Ord, Hash, Default)]
pub struct DefaultLockPolicy;

impl LockOptions for DefaultLockPolicy {
    const DEADLOCK_POLICY: DeadlockPolicy = DeadlockPolicy::Allow;
}

/// Error indicating that a lock wasn't obtained.
#[derive(Clone, Copy, Debug, PartialEq, Eq, PartialOrd, Ord, Hash, Default)]
pub struct LockFailed;

/// How a locking wrapper tries to take its lock.
#[derive(Clone, Copy, Debug, PartialEq, Eq)]
pub enum LockAttempt {
    /// Wait until the lock is free; the attempt always succeeds.
    Block,
    /// Take the lock only if it is free right now.
    TryOnce,
    /// Wait for the lock for at most this long.
    TryFor(Duration),
}

/// Decides how a lock is taken under `policy`.
pub fn lock_attempt(policy: DeadlockPolicy) -> (r: LockAttempt)
    ensures
        policy is Allow ==> r is Block,
        policy is Pessimistic ==> r is TryOnce,
        policy matches DeadlockPolicy::Timeout(d) ==> r == LockAttempt::TryFor(d),
{
    match policy {
        DeadlockPolicy::Allow => LockAttempt::Block,
        DeadlockPolicy::Pessimistic => LockAttempt::TryOnce,
        DeadlockPolicy::Timeout(d) => LockAttempt::TryFor(d),
    }
}

/// What a lock attempt gives: the guard if the lock was taken, [`LockFailed`] if not.
pub fn lock_result<G>(acquired: Option<G>) -> (r: Result<G, LockFailed>)
    ensures
        acquired matches Some(g) ==> r == Ok::<G, LockFailed>(g),
        acquired is None ==> r == Err::<G, LockFailed>(LockFailed),
{
    match acquired {
        Some(g) => Ok(g),
        None => Err(LockFailed),
    }
}

/// Error indicating that a borrow of a thread-bound instance has failed. Threads are named
/// by numbers that the caller gives them, one per thread.
#[derive(Clone, Copy, Debug, PartialEq, Eq, Hash, Structural)]
pub enum LocalCellError {
    /// The instance was used from another thread than the one that made it.
    DifferentThread { original: u64, current: u64 },
    /// The instance is already borrowed in a conflicting way.
    BorrowFailed,
}

/// Decides whether an instance made on thread `original` may be reached from thread
/// `current`: only from the same thread.
pub fn thread_check(original: u64, current: u64) -> (r: Result<(), LocalCellError>)
    ensures
        original == current ==> r is Ok,
        original != current ==> r == Err::<(), LocalCellError>(
            LocalCellError::DifferentThread { original, current },
        ),
{
    if original == current {
        Ok(())
    } else {
        Err(LocalCellError::DifferentThread { original, current })
    }
}

/// What a borrow attempt on a thread-bound instance gives: the borrow if it was possible,
/// [`LocalCellError::BorrowFailed`] if not.
pub fn borrow_result<G>(borrowed: Option<G>) -> (r: Result<G, LocalCellError>)
    ensures
        borrowed matches Some(g) ==> r == Ok::<G, LocalCellError>(g),
        borrowed is None ==> r == Err::<G, LocalCellError>(LocalCellError::BorrowFailed),
{
    match borrowed {
        Some(g) => Ok(g),
        None => Err(LocalCellError::BorrowFailed),
    }
}

/// User-data wrapper encapsulating an `Arc<T>`. Does not implement `MapMut`.
#[derive(Debug)]
pub struct ArcData<T>(Arc<T>);

/// Calls `Arc::clone`, which hands out another reference to the same instance.
#[verifier::external_body]
fn share<T>(a: &Arc<T>) -> (r: Arc<T>)
    ensures
        r == *a,
{
    Arc::clone(a)
}

impl<T> ArcData<T> {
    /// The wrapped instance.
    pub closed spec fn value(&self) -> T {
        *self.0
    }

    /// Creates a new wrapper around `val`.
    pub fn new(val: T) -> (r: Self)
        ensures
            r.value() == val,
    {
        ArcData(Arc::new(val))
    }

    /// Another wrapper that shares the same instance.
    pub fn share(&self) -> (r: Self)
        ensures
            r.value() == self.value(),
    {
        ArcData(share(&self.0))
    }
}

impl<T> MapRef for ArcData<T> {
    type Target = T;

    type Err = Infallible;

    open spec fn target(&self) -> T {
        self.value()
    }

    /// Applies `op` to the instance; this never fails.
    fn map<F, U>(&self, op: F) -> (r: Result<U, Infallible>) where
        F: FnOnce(&Self::Target) -> U,

        ensures
            r matches Ok(u) && op.ensures((&self.value(),), u),
    {
        Ok(op(&*self.0))
    }
}

} // verus!
