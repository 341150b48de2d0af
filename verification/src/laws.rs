//! Laws of the faucet, stated over the same spec functions the operations'
//! contracts use and proved once and for all.

use vstd::prelude::*;

use crate::faucet::{balance_sufficient, claim_allowed, issue_accepted, issue_refund};
use crate::types::{Env, IssueResult, TokenId, Transfer, ONE_DAY};

verus! {

/// An account claims a token at most once per 86,400-time-unit window.
///
/// A successful claim at time `t1` records `t1` in the last-claim table (per
/// the contract of `DevNetFaucet::claim_token`), so a second claim by the same
/// account for the same token at any time `t2` at most 86,400 units later — a
/// gap of exactly 86,400 units included — is rejected, whatever the treasury
/// then holds.
pub proof fn lemma_claim_at_most_once_per_window(t1: u64, t2: u64, balance: u128)
    requires
        t2 - t1 <= ONE_DAY,
    ensures
        !claim_allowed(t1, t2, balance),
{
}

/// Once the window has passed, only liquidity is in the way.
///
/// After a successful claim at time `t1`, a claim by the same account for the
/// same token at any time `t2` strictly more than 86,400 units later —
/// `t1 + 86,401` included — succeeds whenever the treasury balance reaches the
/// fixed claim amount.
pub proof fn lemma_claim_succeeds_after_window(t1: u64, t2: u64, balance: u128)
    requires
        t2 - t1 > ONE_DAY,
        balance_sufficient(balance),
    ensures
        claim_allowed(t1, t2, balance),
{
}

/// Recorded last-claim timestamps only ever move forward.
///
/// A claim is allowed only when the current time lies strictly beyond the
/// recorded timestamp (a whole day beyond, in fact), and a successful claim
/// records the current time (per the contract of `DevNetFaucet::claim_token`);
/// so every write to a last-claim table entry strictly increases it.
pub proof fn lemma_recorded_timestamps_increase(last: u64, now: u64, balance: u128)
    requires
        claim_allowed(last, now, balance),
    ensures
        now > last,
{
}

/// A failed issuance refunds exactly the attached fee; a successful one never
/// refunds.
///
/// When an accepted issuance request fails, the registry returns the forwarded
/// fee as the payment attached to the completion call (`cb_env`); the
/// completion handler then owes the owner a transfer of exactly the fee that
/// was attached to the initiating call (`issue_env`).  When the registry
/// succeeds, the handler owes nothing.
pub proof fn lemma_issue_fee_refunded(issue_env: Env, cb_env: Env, result: IssueResult)
    requires
        issue_accepted(issue_env),
        cb_env.owner == issue_env.owner,
        result is Failed ==> cb_env.payment_token == TokenId::Egld && cb_env.payment_amount
            == issue_env.payment_amount,
    ensures
        result is Failed ==> issue_refund(cb_env, result) == Some(
            Transfer {
                to: issue_env.owner,
                token: TokenId::Egld,
                amount: issue_env.payment_amount,
            },
        ),
        result is Issued ==> issue_refund(cb_env, result) is None,
{
}

} // verus!
