//! The admission limiter: one token bucket shared by every worker, capping
//! how many transfers may start per refill window (one second).
//!
//! An acquire against an empty bucket suspends the caller past the window
//! boundary; the model makes that explicit by returning `false`. The refill
//! stands for the boundary itself.

use vstd::prelude::*;

verus! {

/// A token bucket with a fixed per-window quota.
pub struct TokenBucket {
    quota: u32,
    tokens: u32,
}

/// How a run of acquire calls inside one window goes: each call takes one
/// token when one is left and suspends otherwise. Returns how many of `m`
/// calls are granted and how many tokens remain.
pub open spec fn spec_run_acquires(tokens: nat, m: nat) -> (nat, nat)
    decreases m,
{
    if m == 0 {
        (0, tokens)
    } else if tokens > 0 {
        let rest = spec_run_acquires((tokens - 1) as nat, (m - 1) as nat);
        (rest.0 + 1, rest.1)
    } else {
        (0, 0)
    }
}

impl TokenBucket {
    /// Tokens still available in the current window.
    pub closed spec fn tokens(self) -> nat {
        self.tokens as nat
    }

    /// The fixed per-window quota the bucket was made with.
    pub closed spec fn quota(self) -> nat {
        self.quota as nat
    }

    /// The bucket never holds more tokens than its quota.
    pub open spec fn wf(self) -> bool {
        self.tokens() <= self.quota()
    }

    /// A fresh bucket starts a window with its full quota.
    pub fn new(quota: u32) -> (b: TokenBucket)
        ensures
            b.wf(),
            b.quota() == quota as nat,
            b.tokens() == quota as nat,
    {
        TokenBucket { quota, tokens: quota }
    }

    /// One acquire call: granted exactly when a token is left in the
    /// window; a denied caller suspends until the next refill.
    pub fn try_acquire(&mut self) -> (granted: bool)
        requires
            old(self).wf(),
        ensures
            final(self).wf(),
            final(self).quota() == old(self).quota(),
            granted == (old(self).tokens() > 0),
            granted ==> final(self).tokens() == old(self).tokens() - 1,
            !granted ==> final(self).tokens() == old(self).tokens(),
    {
        if self.tokens > 0 {
            self.tokens = self.tokens - 1;
            true
        } else {
            false
        }
    }

    /// The window boundary: the bucket refills to its quota.
    pub fn refill(&mut self)
        ensures
            final(self).wf(),
            final(self).quota() == old(self).quota(),
            final(self).tokens() == old(self).quota(),
    {
        self.tokens = self.quota;
    }

    /// A burst of `m` acquire calls inside one window: exactly
    /// `spec_run_acquires` of them are granted, the rest suspend.
    pub fn acquire_burst(&mut self, m: usize) -> (granted: usize)
        requires
            old(self).wf(),
        ensures
            final(self).wf(),
            final(self).quota() == old(self).quota(),
            granted as nat == spec_run_acquires(old(self).tokens(), m as nat).0,
            final(self).tokens() == spec_run_acquires(old(self).tokens(), m as nat).1,
            granted <= m,
    {
        let mut granted: usize = 0;
        let mut i: usize = 0;
        while i < m
            invariant
                self.wf(),
                self.quota() == old(self).quota(),
                i <= m,
                granted <= i,
                spec_run_acquires(old(self).tokens(), m as nat) == (
                    (granted as nat + spec_run_acquires(self.tokens(), (m - i) as nat).0),
                    spec_run_acquires(self.tokens(), (m - i) as nat).1,
                ),
            decreases m - i,
        {
            let got = self.try_acquire();
            if got {
                granted = granted + 1;
            }
            i = i + 1;
        }
        granted
    }
}

/// Law: of `m` acquire calls made within one window against a bucket that
/// starts the window full, at most `quota` are granted; when `m` exceeds
/// the quota, at least `m - quota` of the calls suspend past the window
/// boundary.
pub proof fn lemma_admission_cap(b: TokenBucket, m: nat)
    requires
        b.wf(),
        b.tokens() == b.quota(),
    ensures
        spec_run_acquires(b.tokens(), m).0 <= b.quota(),
        m > b.quota() ==> m - spec_run_acquires(b.tokens(), m).0 >= m - b.quota(),
{
    lemma_run_acquires_granted(b.tokens(), m);
}

/// Of any run, the granted count is the smaller of the starting tokens and
/// the number of calls.
pub proof fn lemma_run_acquires_granted(tokens: nat, m: nat)
    ensures
        spec_run_acquires(tokens, m).0 == (if m <= tokens {
            m
        } else {
            tokens
        }),
    decreases m,
{
    if m > 0 && tokens > 0 {
        lemma_run_acquires_granted((tokens - 1) as nat, (m - 1) as nat);
    }
}

} // verus!
