//! Operations settled against the environment.  Each function here runs one
//! contract operation on the balance the treasury reports and, when the
//! operation hands back a transfer instruction, lets the treasury carry it
//! out.  Settling is where the environment's own obligations are discharged
//! once and for all: every instruction the contract issues moves at most what
//! the treasury holds, and an operation that pays out the whole balance
//! provably leaves zero behind.

use vstd::prelude::*;

use crate::faucet::{claim_allowed, DevNetFaucet, Faucet};
use crate::treasury::Treasury;
use crate::types::{Address, Env, Error, TokenId, Transfer};

verus! {

/// Claims `token_id` and settles the payout.
///
/// The claim succeeds exactly when the caller's cooldown has elapsed and the
/// treasury holding reaches the fixed claim amount; the entire holding then
/// goes to the caller and the treasury is left with zero of that token.  A
/// rejected claim moves nothing and records nothing.
pub fn claim_and_settle(
    faucet: &mut Faucet,
    treasury: &mut Treasury,
    env: &Env,
    token_id: TokenId,
) -> (r: Result<Transfer, Error>)
    ensures
        r is Ok <==> claim_allowed(
            old(faucet).last_claim_of(env.caller, token_id),
            env.timestamp,
            old(treasury).balance_of(token_id),
        ),
        r is Ok ==> r->Ok_0 == (Transfer {
            to: env.caller,
            token: token_id,
            amount: old(treasury).balance_of(token_id),
        }),
        r is Ok ==> final(treasury).balance_of(token_id) == 0,
        r is Ok ==> final(faucet).last_claim_of(env.caller, token_id) == env.timestamp,
        !(r is Ok) ==> final(treasury).balance_of(token_id) == old(treasury).balance_of(token_id),
        !(r is Ok) ==> final(faucet).last_claim_of(env.caller, token_id) == old(faucet).last_claim_of(
            env.caller,
            token_id,
        ),
        forall|t: TokenId|
            t != token_id ==> #[trigger] final(treasury).balance_of(t) == old(treasury).balance_of(
                t,
            ),
        forall|a: Address, t: TokenId|
            (a, t) != (env.caller, token_id) ==> #[trigger] final(faucet).last_claim_of(a, t)
                == old(faucet).last_claim_of(a, t),
{
    let balance = treasury.balance(token_id);
    match faucet.claim_token(env, token_id, balance) {
        Ok(instruction) => {
            treasury.apply_transfer(&instruction);
            Ok(instruction)
        },
        Err(e) => Err(e),
    }
}

/// Defunds the native currency and settles the payout.
///
/// Succeeds exactly when the owner calls and the native holding is not zero;
/// the entire holding then goes to the owner and the treasury is left with
/// zero native currency.  Every other holding is untouched either way.
pub fn defund_egld_and_settle(faucet: &Faucet, treasury: &mut Treasury, env: &Env) -> (r: Result<
    Transfer,
    Error,
>)
    ensures
        r is Ok <==> (env.caller == env.owner && old(treasury).balance_of(TokenId::Egld) != 0),
        r == Err::<Transfer, Error>(Error::Unauthorized) <==> env.caller != env.owner,
        r == Err::<Transfer, Error>(Error::NoEgldBalance) <==> (env.caller == env.owner && old(
            treasury,
        ).balance_of(TokenId::Egld) == 0),
        r is Ok ==> r->Ok_0 == (Transfer {
            to: env.caller,
            token: TokenId::Egld,
            amount: old(treasury).balance_of(TokenId::Egld),
        }),
        r is Ok ==> final(treasury).balance_of(TokenId::Egld) == 0,
        !(r is Ok) ==> final(treasury).balance_of(TokenId::Egld) == old(treasury).balance_of(
            TokenId::Egld,
        ),
        forall|t: TokenId|
            t != TokenId::Egld ==> #[trigger] final(treasury).balance_of(t) == old(
                treasury,
            ).balance_of(t),
{
    let balance = treasury.balance(TokenId::Egld);
    match faucet.defund_contract_egld(env, balance) {
        Ok(instruction) => {
            treasury.apply_transfer(&instruction);
            Ok(instruction)
        },
        Err(e) => Err(e),
    }
}

/// Defunds a token and settles the payout.
///
/// Succeeds exactly when the owner calls, with no zero-balance guard; the
/// entire holding of `token_id` — possibly zero — then goes to the owner and
/// the treasury is left with zero of that token.
pub fn defund_tokens_and_settle(
    faucet: &Faucet,
    treasury: &mut Treasury,
    env: &Env,
    token_id: TokenId,
) -> (r: Result<Transfer, Error>)
    ensures
        r is Ok <==> env.caller == env.owner,
        r == Err::<Transfer, Error>(Error::Unauthorized) <==> env.caller != env.owner,
        r is Ok ==> r->Ok_0 == (Transfer {
            to: env.caller,
            token: token_id,
            amount: old(treasury).balance_of(token_id),
        }),
        r is Ok ==> final(treasury).balance_of(token_id) == 0,
        !(r is Ok) ==> final(treasury).balance_of(token_id) == old(treasury).balance_of(token_id),
        forall|t: TokenId|
            t != token_id ==> #[trigger] final(treasury).balance_of(t) == old(treasury).balance_of(
                t,
            ),
{
    let balance = treasury.balance(token_id);
    match faucet.defund_contract_tokens(env, token_id, balance) {
        Ok(instruction) => {
            treasury.apply_transfer(&instruction);
            Ok(instruction)
        },
        Err(e) => Err(e),
    }
}

} // verus!
