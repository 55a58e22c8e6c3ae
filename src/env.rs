//! Thread-local state: one acquisition of a shared mutex, and the depth of the
//! logical scopes opened while it is held.

use vstd::prelude::*;
use std::sync::{Mutex, MutexGuard, PoisonError};

verus! {

/// `std::sync::Mutex`, carried through as an opaque value.
#[verifier::external_type_specification]
#[verifier::external_body]
#[verifier::reject_recursive_types(T)]
pub struct ExMutex<T: ?Sized>(Mutex<T>);

/// `std::sync::MutexGuard`: holding one keeps the mutex locked until it is dropped.
#[verifier::external_type_specification]
#[verifier::external_body]
#[verifier::reject_recursive_types(T)]
pub struct ExMutexGuard<'a, T: ?Sized + 'a>(MutexGuard<'a, T>);

/// `std::sync::PoisonError`, the error of locking a poisoned mutex.
#[verifier::external_type_specification]
#[verifier::external_body]
#[verifier::reject_recursive_types(T)]
pub struct ExPoisonError<T>(PoisonError<T>);

/// Relies on `std::sync::Mutex::lock`: blocks until the mutex is free and
/// hands back its guard, or the poison error when an earlier holder panicked
/// while holding it. Nothing is promised of which of the two comes back.
/// Locking a mutex that the calling thread already holds may deadlock or
/// panic; a guard calls this only while it holds no guard of its own.
#[verifier::external_body]
fn lock_mutex<'a>(mutex: &'a Mutex<()>) -> (r: Result<MutexGuard<'a, ()>, PoisonError<MutexGuard<'a, ()>>>) {
    mutex.lock()
}

#[derive(Debug, Clone, Copy, PartialEq, Eq, Structural)]
pub enum ThreadStateError {
    MissingScope,
}

/// The abstract state of a guard: whether it holds the lock, and how many
/// logical scopes are open.
pub ghost struct GuardModel {
    pub held: bool,
    pub depth: nat,
}

#[derive(Debug)]
pub struct ThreadState<'guard> {
    mutex: &'guard Mutex<()>,
    guard: Option<MutexGuard<'guard, ()>>,
    scope_depth: usize,
}

impl<'guard> View for ThreadState<'guard> {
    type V = GuardModel;

    closed spec fn view(&self) -> GuardModel {
        GuardModel { held: self.guard is Some, depth: self.scope_depth as nat }
    }
}

impl<'guard> ThreadState<'guard> {
    /// The mutex this guard was built on.
    pub closed spec fn lock_ref(&self) -> Mutex<()> {
        *self.mutex
    }

    pub fn new(mutex: &'guard Mutex<()>) -> (r: Self)
        ensures
            r@ == initial_model(),
            r.lock_ref() == *mutex,
    {
        ThreadState { mutex, guard: None, scope_depth: 0 }
    }

    /// Increment the tracked scope depth, saturating at `usize::MAX`.
    ///
    /// A scope may be opened on an unheld guard too: the depth is plain
    /// bookkeeping, and holding the lock is left to the caller's discipline.
    pub fn enter_scope(&mut self)
        ensures
            final(self)@ == enter_model(old(self)@),
            final(self).lock_ref() == old(self).lock_ref(),
    {
        self.scope_depth = self.scope_depth.saturating_add(1);
    }

    /// Close the innermost scope; `MissingScope` when none is open, in which
    /// case the depth stays at zero.
    pub fn exit_scope(&mut self) -> (r: Result<(), ThreadStateError>)
        ensures
            final(self)@ == exit_model(old(self)@),
            final(self).lock_ref() == old(self).lock_ref(),
            r is Ok <==> exit_ok(old(self)@),
            r is Err ==> r == Err::<(), ThreadStateError>(ThreadStateError::MissingScope),
    {
        if self.scope_depth == 0 {
            return Err(ThreadStateError::MissingScope);
        }
        self.scope_depth = self.scope_depth - 1;
        Ok(())
    }

    /// Make sure the mutex is held by this guard. A held guard is left as it
    /// is; otherwise the mutex is locked, blocking until it is free.
    pub fn acquire_outermost_lock(&mut self) -> (r: Result<(), PoisonError<MutexGuard<'guard, ()>>>)
        ensures
            acquire_allows(old(self)@, final(self)@, r is Ok),
            final(self).lock_ref() == old(self).lock_ref(),
    {
        if self.guard.is_none() {
            let outcome = lock_mutex(self.mutex);
            self.complete_acquire(outcome)
        } else {
            Ok(())
        }
    }

    /// Finish acquiring on an unheld guard, given the outcome of locking its
    /// mutex: a guard is kept and the call succeeds; a poison error is handed
    /// back as it came and the guard stays unheld.
    pub fn complete_acquire(
        &mut self,
        outcome: Result<MutexGuard<'guard, ()>, PoisonError<MutexGuard<'guard, ()>>>,
    ) -> (r: Result<(), PoisonError<MutexGuard<'guard, ()>>>)
        requires
            !old(self)@.held,
        ensures
            acquire_allows(old(self)@, final(self)@, r is Ok),
            final(self).lock_ref() == old(self).lock_ref(),
            r is Ok <==> outcome is Ok,
            outcome is Err ==> r->Err_0 == outcome->Err_0,
    {
        match outcome {
            Ok(guard) => {
                self.guard = Some(guard);
                Ok(())
            },
            Err(e) => Err(e),
        }
    }

    /// Release the mutex if this guard holds it. Releasing while scopes are
    /// still open is a caller's mistake; the result depends on holding alone.
    pub fn release_outermost_lock(&mut self) -> (r: Result<(), &'static str>)
        ensures
            final(self)@ == release_model(old(self)@),
            final(self).lock_ref() == old(self).lock_ref(),
            r is Ok <==> release_ok(old(self)@),
    {
        let guard = self.guard.take();
        match guard {
            Some(_held) => Ok(()),
            None => Err("outermost lock was not held"),
        }
    }

    /// The number of open scopes.
    pub fn scope_depth(&self) -> (r: usize)
        ensures
            r as nat == self@.depth,
    {
        self.scope_depth
    }

    /// Whether this guard holds the mutex.
    pub fn is_held(&self) -> (r: bool)
        ensures
            r == self@.held,
    {
        self.guard.is_some()
    }
}

/// A freshly built guard: unheld, no scope open.
pub open spec fn initial_model() -> GuardModel {
    GuardModel { held: false, depth: 0 }
}

/// Opening a scope: one more level, saturating at the largest `usize`.
pub open spec fn enter_model(m: GuardModel) -> GuardModel {
    GuardModel { depth: if m.depth < usize::MAX { m.depth + 1 } else { m.depth }, ..m }
}

/// Closing a scope succeeds exactly when one is open.
pub open spec fn exit_ok(m: GuardModel) -> bool {
    m.depth > 0
}

/// Closing a scope: one level less, and no change at depth zero.
pub open spec fn exit_model(m: GuardModel) -> GuardModel {
    if m.depth > 0 {
        GuardModel { depth: (m.depth - 1) as nat, ..m }
    } else {
        m
    }
}

/// The outcomes that acquiring allows: a held guard stays as it is and
/// succeeds; an unheld one either becomes held, or is left as it was and
/// reports the lock's error.
pub open spec fn acquire_allows(pre: GuardModel, post: GuardModel, ok: bool) -> bool {
    if pre.held {
        ok && post == pre
    } else if ok {
        post == GuardModel { held: true, ..pre }
    } else {
        post == pre
    }
}

/// Releasing succeeds exactly when the lock is held, whatever the depth.
pub open spec fn release_ok(m: GuardModel) -> bool {
    m.held
}

/// Releasing: the lock is no longer held; the depth is untouched.
pub open spec fn release_model(m: GuardModel) -> GuardModel {
    GuardModel { held: false, ..m }
}

} // verus!
