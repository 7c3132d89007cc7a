//! The state shared by everything that talks to the chat platform, and the
//! loop that keeps the delegated token fresh.

use crate::ms_graph_api::subscription::Subscription;
use crate::ms_graph_api::token::ApplicationToken;
use vstd::prelude::*;

verus! {

/// The service token and the subscription, which are read and changed
/// together.
pub struct MSGraphAPIState {
    pub token: ApplicationToken,
    pub subscription: Subscription,
}

impl MSGraphAPIState {
    /// No token and no subscription yet.
    pub fn new() -> (r: Self)
        ensures
            r.token.value@.len() == 0,
            r.token.expires_at == 0,
            r.subscription.subscription_id == 0,
            r.subscription.subscription_secret == 0,
    {
        MSGraphAPIState { token: ApplicationToken::new(), subscription: Subscription::new() }
    }
}

/// The loop that renews the delegated token: how long it sleeps next, and
/// whether it is still waiting for the user's consent.
#[derive(Clone, Copy, Debug, PartialEq, Eq, Structural)]
pub struct RenewalLoop {
    pub backoff: u64,
    pub token_is_empty: bool,
}

/// What the renewal loop does next.
#[derive(Clone, Copy, Debug, PartialEq, Eq, Structural)]
pub enum RenewalAction {
    /// Sleep this many seconds, then report back.
    Sleep(u64),
    /// Redeem the refresh token, then report the outcome.
    Refresh,
    /// Renewal has failed for good; the loop ends.
    GiveUp,
}

/// The loop after a sleep, where `present` tells whether there is a
/// delegated token by now.
pub open spec fn woken(pre: RenewalLoop, present: bool) -> (RenewalLoop, RenewalAction) {
    let still_empty = pre.token_is_empty && !present;
    (
        RenewalLoop { backoff: pre.backoff, token_is_empty: still_empty },
        if still_empty {
            RenewalAction::Sleep(pre.backoff)
        } else {
            RenewalAction::Refresh
        },
    )
}

/// The loop after a renewal, where `granted` is the lifetime of the new
/// token, or `None` where the renewal failed.
pub open spec fn refreshed(pre: RenewalLoop, granted: Option<u64>) -> (RenewalLoop, RenewalAction) {
    match granted {
        Some(lifetime) => (
            RenewalLoop { backoff: lifetime / 2, token_is_empty: pre.token_is_empty },
            RenewalAction::Sleep(lifetime / 2),
        ),
        None => (
            RenewalLoop { backoff: pre.backoff / 2, token_is_empty: pre.token_is_empty },
            if pre.backoff / 2 > 1 {
                RenewalAction::Sleep(pre.backoff / 2)
            } else {
                RenewalAction::GiveUp
            },
        ),
    }
}

impl RenewalLoop {
    /// The loop as it starts: it sleeps one second and waits for consent.
    pub fn manage_granted_token() -> (r: (RenewalLoop, RenewalAction))
        ensures
            r.0 == (RenewalLoop { backoff: 1, token_is_empty: true }),
            r.1 == RenewalAction::Sleep(1),
    {
        (RenewalLoop { backoff: 1, token_is_empty: true }, RenewalAction::Sleep(1))
    }

    /// Reports that the sleep is over. While the loop waits for consent it
    /// looks whether there is a token by now; once there was one, the loop
    /// renews after every sleep.
    pub fn after_sleep(&mut self, present: bool) -> (r: RenewalAction)
        ensures
            (*final(self), r) == woken(*old(self), present),
    {
        if self.token_is_empty {
            self.token_is_empty = !present;
        }
        if self.token_is_empty {
            RenewalAction::Sleep(self.backoff)
        } else {
            RenewalAction::Refresh
        }
    }

    /// Reports the outcome of a renewal. After a success the loop sleeps
    /// half the granted lifetime. After a failure it halves its sleep, and
    /// gives up once that has come down to a second or less.
    pub fn after_refresh(&mut self, granted: Option<u64>) -> (r: RenewalAction)
        ensures
            (*final(self), r) == refreshed(*old(self), granted),
    {
        match granted {
            Some(lifetime) => {
                self.backoff = lifetime / 2;
                RenewalAction::Sleep(self.backoff)
            },
            None => {
                self.backoff = self.backoff / 2;
                if self.backoff > 1 {
                    RenewalAction::Sleep(self.backoff)
                } else {
                    RenewalAction::GiveUp
                }
            },
        }
    }
}

/// How the loop stands after `failures` failed renewals in a row.
pub open spec fn after_failures(pre: RenewalLoop, failures: nat) -> RenewalLoop
    decreases failures,
{
    if failures == 0 {
        pre
    } else {
        refreshed(after_failures(pre, (failures - 1) as nat), None).0
    }
}

/// Renewal does not fail forever: every failure at least halves the sleep,
/// so that the sixty-fourth failure in a row, and any after it, makes the
/// loop give up.
pub proof fn lemma_failures_end_the_loop(pre: RenewalLoop, failures: nat)
    requires
        failures >= 63,
    ensures
        refreshed(after_failures(pre, failures), None).1 == RenewalAction::GiveUp,
    decreases failures,
{
    if failures == 63 {
        lemma_backoff_shrinks(pre, 63);
        let last = after_failures(pre, 63);
        assert(pow2(63) * 2 > u64::MAX) by {
            lemma_pow2_values();
        }
        assert(last.backoff <= 1) by (nonlinear_arith)
            requires
                last.backoff * pow2(63) <= pre.backoff,
                pre.backoff <= u64::MAX,
                pow2(63) * 2 > u64::MAX,
                last.backoff >= 0,
        ;
    } else {
        lemma_failures_end_the_loop(pre, (failures - 1) as nat);
    }
}

/// Two to the power `n`.
pub open spec fn pow2(n: nat) -> nat
    decreases n,
{
    if n == 0 {
        1
    } else {
        2 * pow2((n - 1) as nat)
    }
}

proof fn lemma_pow2_values()
    ensures
        pow2(63) == 0x8000_0000_0000_0000,
{
    reveal_with_fuel(pow2, 64);
}

/// After `failures` failures the sleep is at most the `failures`-th part,
/// by halving, of what it was.
pub proof fn lemma_backoff_shrinks(pre: RenewalLoop, failures: nat)
    ensures
        after_failures(pre, failures).backoff * pow2(failures) <= pre.backoff,
    decreases failures,
{
    if failures > 0 {
        lemma_backoff_shrinks(pre, (failures - 1) as nat);
        let earlier = after_failures(pre, (failures - 1) as nat);
        let now = after_failures(pre, failures);
        assert(now.backoff == earlier.backoff / 2);
        assert(now.backoff * 2 <= earlier.backoff);
        assert(now.backoff * pow2(failures) <= earlier.backoff * pow2((failures - 1) as nat))
            by (nonlinear_arith)
            requires
                now.backoff * 2 <= earlier.backoff,
                pow2(failures) == 2 * pow2((failures - 1) as nat),
                now.backoff >= 0,
        ;
    } else {
        assert(pow2(0) == 1);
        assert(pre.backoff * 1 == pre.backoff);
    }
}

} // verus!
