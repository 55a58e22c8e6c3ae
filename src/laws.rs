//! Properties that relate several operations of a guard, stated over the
//! model functions that the operations' own contracts use.

use vstd::prelude::*;
use crate::env::{
    acquire_allows, enter_model, exit_model, exit_ok, initial_model, release_model, release_ok,
    GuardModel,
};

verus! {

/// `n` scopes opened one after another.
pub open spec fn enter_n(m: GuardModel, n: nat) -> GuardModel
    decreases n,
{
    if n == 0 {
        m
    } else {
        enter_model(enter_n(m, (n - 1) as nat))
    }
}

/// `n` scopes closed one after another.
pub open spec fn exit_n(m: GuardModel, n: nat) -> GuardModel
    decreases n,
{
    if n == 0 {
        m
    } else {
        exit_n(exit_model(m), (n - 1) as nat)
    }
}

/// Whether each of `n` successive closings succeeds.
pub open spec fn exits_succeed(m: GuardModel, n: nat) -> bool
    decreases n,
{
    n == 0 || (exit_ok(m) && exits_succeed(exit_model(m), (n - 1) as nat))
}

/// Acquiring twice in a row: once the first call has succeeded, the second
/// succeeds too and changes nothing, so the guard ends held as after one call.
pub proof fn lemma_acquire_idempotent(
    m0: GuardModel,
    m1: GuardModel,
    m2: GuardModel,
    second_ok: bool,
)
    requires
        acquire_allows(m0, m1, true),
        acquire_allows(m1, m2, second_ok),
    ensures
        second_ok,
        m2 == m1,
        m1.held,
        m1.depth == m0.depth,
{
}

proof fn lemma_enter_n_depth(m: GuardModel, n: nat)
    requires
        m.depth + n <= usize::MAX,
    ensures
        enter_n(m, n) == (GuardModel { depth: m.depth + n, ..m }),
    decreases n,
{
    if n > 0 {
        lemma_enter_n_depth(m, (n - 1) as nat);
    }
}

proof fn lemma_exit_n_from(m: GuardModel, n: nat)
    requires
        n <= m.depth,
    ensures
        exits_succeed(m, n),
        exit_n(m, n) == (GuardModel { depth: (m.depth - n) as nat, ..m }),
    decreases n,
{
    if n > 0 {
        lemma_exit_n_from(exit_model(m), (n - 1) as nat);
    }
}

/// Opening `n` scopes and then closing `n`: every closing succeeds and the
/// guard is back where it started (from a fresh guard, at depth zero), as
/// long as the openings do not reach the saturation bound.
pub proof fn lemma_scope_balance(m: GuardModel, n: nat)
    requires
        m.depth + n <= usize::MAX,
    ensures
        exits_succeed(enter_n(m, n), n),
        exit_n(enter_n(m, n), n) == m,
{
    lemma_enter_n_depth(m, n);
    lemma_exit_n_from(enter_n(m, n), n);
}

/// Releasing a guard that was never acquired fails, and leaves it as built.
pub proof fn lemma_release_without_acquire()
    ensures
        !release_ok(initial_model()),
        release_model(initial_model()) == initial_model(),
{
}

} // verus!
