//! The faucet contract: token issuance with a compensating refund, the
//! rate-limited claim gate, and the owner-only treasury accessors.
//!
//! [`DevNetFaucet`] is the contract's operation surface; each operation is a
//! decision function.  It takes the call context the execution environment
//! supplies (an [`Env`]) together with the treasury balance the environment
//! reports, and yields either an instruction for the environment to carry out
//! or the error the invocation aborts with.  [`Faucet`] implements the
//! surface; the last-claim table is the only state the contract itself owns.

use vstd::prelude::*;

use crate::table::LastClaimTable;
use crate::types::{
    Address, Env, Error, IssueRequest, IssueResult, TokenId, TokenProperties, Transfer,
    CLAIM_AMOUNT, ONE_DAY, TOKEN_DECIMALS, TOTAL_SUPPLY,
};

verus! {

/// The rate-limit gate: the gap between the recorded last claim and the
/// current time must strictly exceed one day.  A gap of exactly one day is
/// not sufficient.
pub open spec fn cooldown_elapsed(last: u64, now: u64) -> bool {
    now - last > ONE_DAY
}

/// The liquidity gate: the treasury balance must reach the fixed claim amount.
pub open spec fn balance_sufficient(balance: u128) -> bool {
    balance >= CLAIM_AMOUNT
}

/// Both gates of a claim: the cooldown has elapsed and the treasury suffices.
pub open spec fn claim_allowed(last: u64, now: u64, balance: u128) -> bool {
    cooldown_elapsed(last, now) && balance_sufficient(balance)
}

/// The acceptance gate of token issuance: the owner calls, with a strictly
/// positive payment in the native currency attached.
pub open spec fn issue_accepted(env: Env) -> bool {
    env.caller == env.owner && env.payment_token == TokenId::Egld && env.payment_amount > 0
}

/// The fixed property set every issuance requests: not mintable or burnable,
/// not freezable, wipeable or pausable, but owner-transferable, upgradable,
/// permitted to gain special roles later, with 18 decimals.
pub open spec fn issued_token_properties() -> TokenProperties {
    TokenProperties {
        can_burn: false,
        can_mint: false,
        num_decimals: TOKEN_DECIMALS,
        can_freeze: false,
        can_wipe: false,
        can_pause: false,
        can_change_owner: true,
        can_upgrade: true,
        can_add_special_roles: true,
    }
}

/// The compensating action owed after the registry answers an issuance
/// request: when issuance failed and the environment hands the completion
/// call a positive native-currency refund, the full refund goes back to the
/// owner; in every other case nothing is transferred.
pub open spec fn issue_refund(env: Env, result: IssueResult) -> Option<Transfer> {
    if result is Failed && env.payment_token == TokenId::Egld && env.payment_amount > 0 {
        Some(Transfer { to: env.owner, token: TokenId::Egld, amount: env.payment_amount })
    } else {
        None
    }
}

/// The faucet contract's operation surface.  Treasury balances are owned and
/// tracked by the execution environment; the implementor's only persisted
/// state is the last-claim table, which `last_claim_of` exposes to contracts.
pub trait DevNetFaucet: Sized {
    /// The last-claim timestamp recorded for (address, token); 0 when that
    /// account has never successfully claimed that token.
    spec fn last_claim_of(self, address: Address, token: TokenId) -> u64;

    /// Deploys the contract with an empty last-claim table.
    fn init() -> (r: Self)
        ensures
            forall|a: Address, t: TokenId| #[trigger] r.last_claim_of(a, t) == 0,
    ;

    /// Requests issuance of a fungible token from the platform registry.
    ///
    /// Only the owner may call, and a strictly positive native-currency
    /// payment must be attached; the payment is forwarded to the registry as
    /// the issuance fee.  On acceptance the returned request carries exactly
    /// that fee, the given name and ticker, the fixed total supply, and the
    /// fixed property set; the registry answers it asynchronously through
    /// [`DevNetFaucet::issue_callback`].
    fn issue_token(&self, env: &Env, token_name: Vec<u8>, token_ticker: Vec<u8>) -> (r: Result<
        IssueRequest,
        Error,
    >)
        ensures
            r is Ok <==> issue_accepted(*env),
            r == Err::<IssueRequest, Error>(Error::Unauthorized) <==> env.caller != env.owner,
            r == Err::<IssueRequest, Error>(Error::NoPayment) <==> (env.caller == env.owner && !(
            env.payment_token == TokenId::Egld && env.payment_amount > 0)),
            r is Ok ==> {
                &&& r->Ok_0.fee == env.payment_amount
                &&& r->Ok_0.name@ == token_name@
                &&& r->Ok_0.ticker@ == token_ticker@
                &&& r->Ok_0.supply == TOTAL_SUPPLY
                &&& r->Ok_0.properties == issued_token_properties()
            },
    ;

    /// The completion handler the registry answers an issuance request with.
    ///
    /// On success nothing is done: the registry hands the new token identifier
    /// to the owner out of band.  On failure the environment attaches the
    /// refunded fee as this call's payment; when that refund is a positive
    /// amount of the native currency, the whole of it is forwarded back to the
    /// owner, so a failed issuance never costs the owner the fee.
    fn issue_callback(&self, env: &Env, result: IssueResult) -> (r: Option<Transfer>)
        ensures
            r == issue_refund(*env, result),
            result is Issued ==> r is None,
    ;

    /// Withdraws the contract's whole native-currency balance to the owner.
    ///
    /// `egld_balance` is the contract's current native-currency holding as the
    /// environment reports it.  Only the owner may call, and the balance must
    /// not be zero; the returned instruction then transfers exactly that
    /// balance to the caller.
    fn defund_contract_egld(&self, env: &Env, egld_balance: u128) -> (r: Result<Transfer, Error>)
        ensures
            r is Ok <==> (env.caller == env.owner && egld_balance != 0),
            r == Err::<Transfer, Error>(Error::Unauthorized) <==> env.caller != env.owner,
            r == Err::<Transfer, Error>(Error::NoEgldBalance) <==> (env.caller == env.owner
                && egld_balance == 0),
            r is Ok ==> r->Ok_0 == (Transfer {
                to: env.caller,
                token: TokenId::Egld,
                amount: egld_balance,
            }),
    ;

    /// Withdraws the contract's whole balance of a token to the owner.
    ///
    /// `balance` is the contract's current holding of `token_id` as the
    /// environment reports it.  Only the owner may call; there is no
    /// zero-balance guard, so the returned instruction may transfer zero,
    /// which the environment treats as a no-op.
    fn defund_contract_tokens(&self, env: &Env, token_id: TokenId, balance: u128) -> (r: Result<
        Transfer,
        Error,
    >)
        ensures
            r is Ok <==> env.caller == env.owner,
            r == Err::<Transfer, Error>(Error::Unauthorized) <==> env.caller != env.owner,
            r is Ok ==> r->Ok_0 == (Transfer { to: env.caller, token: token_id, amount: balance }),
    ;

    /// Claims a token: any caller, at most once per day per token.
    ///
    /// `balance` is the contract's current holding of `token_id` as the
    /// environment reports it.  The claim succeeds exactly when the gap since
    /// this caller's last claim of this token strictly exceeds one day and the
    /// balance reaches the fixed claim amount; it then records the current
    /// timestamp in the last-claim table — strictly before the transfer is
    /// handed out, closing the reentrancy window — and transfers the *entire*
    /// balance, not merely the fixed amount, to the caller.
    fn claim_token(&mut self, env: &Env, token_id: TokenId, balance: u128) -> (r: Result<
        Transfer,
        Error,
    >)
        ensures
            r is Ok <==> claim_allowed(
                old(self).last_claim_of(env.caller, token_id),
                env.timestamp,
                balance,
            ),
            r == Err::<Transfer, Error>(Error::CooldownNotElapsed) <==> !cooldown_elapsed(
                old(self).last_claim_of(env.caller, token_id),
                env.timestamp,
            ),
            r == Err::<Transfer, Error>(Error::InsufficientBalance) <==> (cooldown_elapsed(
                old(self).last_claim_of(env.caller, token_id),
                env.timestamp,
            ) && !balance_sufficient(balance)),
            r is Ok ==> r->Ok_0 == (Transfer { to: env.caller, token: token_id, amount: balance }),
            r is Ok ==> final(self).last_claim_of(env.caller, token_id) == env.timestamp,
            r is Ok ==> env.timestamp > old(self).last_claim_of(env.caller, token_id),
            r is Ok ==> forall|a: Address, t: TokenId|
                (a, t) != (env.caller, token_id)
                    ==> #[trigger] final(self).last_claim_of(a, t) == old(self).last_claim_of(a, t),
            !(r is Ok) ==> forall|a: Address, t: TokenId| #[trigger] final(self).last_claim_of(a, t)
                == old(self).last_claim_of(a, t),
    ;

    /// Reads the last-claim table entry for (address, token), for external
    /// inspection; 0 when that account has never claimed that token.
    fn last_claim(&self, address: Address, token_id: TokenId) -> (r: u64)
        ensures
            r == self.last_claim_of(address, token_id),
    ;
}

/// The faucet contract.  Its only persisted state is the last-claim table.
pub struct Faucet {
    last_claim: LastClaimTable,
}

impl DevNetFaucet for Faucet {
    closed spec fn last_claim_of(self, address: Address, token: TokenId) -> u64 {
        self.last_claim.last_of(address, token)
    }

    fn init() -> (r: Self) {
        Faucet { last_claim: LastClaimTable::new() }
    }

    fn issue_token(&self, env: &Env, token_name: Vec<u8>, token_ticker: Vec<u8>) -> (r: Result<
        IssueRequest,
        Error,
    >) {
        if env.caller != env.owner {
            return Err(Error::Unauthorized);
        }
        if !(env.payment_token.is_egld() && env.payment_amount > 0) {
            return Err(Error::NoPayment);
        }
        Ok(
            IssueRequest {
                fee: env.payment_amount,
                name: token_name,
                ticker: token_ticker,
                supply: TOTAL_SUPPLY,
                properties: TokenProperties {
                    can_burn: false,
                    can_mint: false,
                    num_decimals: TOKEN_DECIMALS,
                    can_freeze: false,
                    can_wipe: false,
                    can_pause: false,
                    can_change_owner: true,
                    can_upgrade: true,
                    can_add_special_roles: true,
                },
            },
        )
    }

    fn issue_callback(&self, env: &Env, result: IssueResult) -> (r: Option<Transfer>) {
        match result {
            IssueResult::Issued(_) => None,
            IssueResult::Failed => {
                let owner = env.owner;
                if env.payment_token.is_egld() && env.payment_amount > 0 {
                    Some(
                        Transfer {
                            to: owner,
                            token: env.payment_token,
                            amount: env.payment_amount,
                        },
                    )
                } else {
                    None
                }
            },
        }
    }

    fn defund_contract_egld(&self, env: &Env, egld_balance: u128) -> (r: Result<Transfer, Error>) {
        if env.caller != env.owner {
            return Err(Error::Unauthorized);
        }
        if egld_balance == 0 {
            return Err(Error::NoEgldBalance);
        }
        Ok(Transfer { to: env.caller, token: TokenId::Egld, amount: egld_balance })
    }

    fn defund_contract_tokens(&self, env: &Env, token_id: TokenId, balance: u128) -> (r: Result<
        Transfer,
        Error,
    >) {
        if env.caller != env.owner {
            return Err(Error::Unauthorized);
        }
        Ok(Transfer { to: env.caller, token: token_id, amount: balance })
    }

    fn claim_token(&mut self, env: &Env, token_id: TokenId, balance: u128) -> (r: Result<
        Transfer,
        Error,
    >) {
        let caller = env.caller;
        let current_time = env.timestamp;
        let last = self.last_claim.get(caller, token_id);
        if !(current_time > last && current_time - last > ONE_DAY) {
            return Err(Error::CooldownNotElapsed);
        }
        if !(CLAIM_AMOUNT <= balance) {
            return Err(Error::InsufficientBalance);
        }
        self.last_claim.set(caller, token_id, current_time);
        Ok(Transfer { to: caller, token: token_id, amount: balance })
    }

    fn last_claim(&self, address: Address, token_id: TokenId) -> (r: u64) {
        self.last_claim.get(address, token_id)
    }
}

} // verus!
