//! The process-wide health flag: a single boolean, read by the health
//! endpoint and flipped by the toggle endpoint. One instance exists per
//! process; the embedding program serialises concurrent access (every
//! toggle is linearizable), so its history is a sequence of `read`, `set`
//! and `toggle` calls, which the contracts below describe.

use vstd::prelude::*;

verus! {

/// The service's health flag. Starts `true`; `set` is meant for
/// initialisation from configuration, before requests are served.
pub struct HealthState {
    healthy: bool,
}

impl HealthState {
    /// The current value of the flag.
    pub closed spec fn is_healthy(self) -> bool {
        self.healthy
    }

    /// A fresh flag, healthy.
    pub fn new() -> (s: Self)
        ensures
            s.is_healthy(),
    {
        HealthState { healthy: true }
    }

    /// Overwrite the flag; used once, at initialisation.
    pub fn set(&mut self, value: bool)
        ensures
            final(self).is_healthy() == value,
    {
        self.healthy = value;
    }

    /// Read the flag. Never blocks, never fails.
    pub fn read(&self) -> (v: bool)
        ensures
            v == self.is_healthy(),
    {
        self.healthy
    }

    /// Flip the flag and return the new value: the value this very call
    /// produced, never a stale one.
    pub fn toggle(&mut self) -> (v: bool)
        ensures
            final(self).is_healthy() == !old(self).is_healthy(),
            v == final(self).is_healthy(),
    {
        self.healthy = !self.healthy;
        self.healthy
    }
}

/// The flag after `n` successive `toggle` calls starting from `s`.
pub open spec fn after_toggles(s: bool, n: nat) -> bool
    decreases n,
{
    if n == 0 {
        s
    } else {
        !after_toggles(s, (n - 1) as nat)
    }
}

/// The values returned by `n` successive `toggle` calls starting from `s`:
/// the i-th call returns the state it left behind.
pub open spec fn toggle_returns(s: bool, n: nat) -> Seq<bool> {
    Seq::new(n, |i: int| after_toggles(s, (i + 1) as nat))
}

/// Law: `n` toggles from state `s` leave the flag at `s` when `n` is even
/// and at `!s` when `n` is odd.
pub proof fn lemma_toggle_parity(s: bool, n: nat)
    ensures
        after_toggles(s, n) == (if n % 2 == 0 {
            s
        } else {
            !s
        }),
    decreases n,
{
    if n > 0 {
        lemma_toggle_parity(s, (n - 1) as nat);
    }
}

/// Law: a second toggle flips back what the first flipped, so two toggles
/// in a row restore the flag.
pub proof fn lemma_double_toggle(s: bool)
    ensures
        after_toggles(s, 2) == s,
{
    assert(after_toggles(s, 2) == !after_toggles(s, 1));
    assert(after_toggles(s, 1) == !after_toggles(s, 0));
}

/// Law: the values returned by `n` toggles from state `s` form the
/// alternating sequence that starts from `!s`.
pub proof fn lemma_toggle_returns_alternate(s: bool, n: nat)
    ensures
        toggle_returns(s, n).len() == n,
        forall|i: int|
            0 <= i < n ==> toggle_returns(s, n)[i] == (if i % 2 == 0 {
                !s
            } else {
                s
            }),
{
    assert forall|i: int|
        0 <= i < n implies toggle_returns(s, n)[i] == (if i % 2 == 0 {
        !s
    } else {
        s
    }) by {
        lemma_toggle_parity(s, (i + 1) as nat);
    }
}

} // verus!
