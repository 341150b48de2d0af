//! Plain-value models of the execution environment's data: addresses, token
//! identifiers, amounts, call contexts, and the instructions the contract
//! hands back to the environment.

use vstd::prelude::*;

verus! {

/// Length of the claim cooldown interval, in the environment's time units: one day.
pub const ONE_DAY: u64 = 86400;

/// The fixed amount a claim checks the treasury against:
/// 1000 whole tokens of 10^18 base units each.
pub const CLAIM_AMOUNT: u128 = 1_000_000_000_000_000_000_000;

/// The fixed total supply every issuance requests:
/// 100,000,000 whole tokens of 10^18 base units each.
pub const TOTAL_SUPPLY: u128 = 100_000_000_000_000_000_000_000_000;

/// The number of decimals every issuance requests.
pub const TOKEN_DECIMALS: usize = 18;

/// An account address: an opaque identifier the execution environment supplies
/// for the caller, the owner, or the contract itself.
#[derive(Clone, Copy, Debug, PartialEq, Eq, Structural)]
pub struct Address {
    pub id: u64,
}

/// A token identifier: either the chain's native currency or a registered
/// fungible token, named by an opaque identifier.
#[derive(Clone, Copy, Debug, PartialEq, Eq, Structural)]
pub enum TokenId {
    /// The native currency.
    Egld,
    /// A registry-issued fungible token.
    Fungible(u64),
}

impl TokenId {
    /// Whether this identifier names the native currency.
    pub fn is_egld(&self) -> (r: bool)
        ensures
            r == (*self == TokenId::Egld),
    {
        match self {
            TokenId::Egld => true,
            TokenId::Fungible(_) => false,
        }
    }
}

/// Why an operation was rejected.  Every rejection aborts the invocation with
/// no state change.
#[derive(Clone, Copy, Debug, PartialEq, Eq, Structural)]
pub enum Error {
    /// The caller is not the contract owner.
    Unauthorized,
    /// Token issuance was invoked without a strictly positive payment in the
    /// native currency.
    NoPayment,
    /// The contract holds no native currency to defund.
    NoEgldBalance,
    /// The cooldown interval since the caller's last claim of this token has
    /// not yet elapsed: the caller must wait one day between claims.
    CooldownNotElapsed,
    /// The treasury balance of the claimed token is below the fixed claim amount.
    InsufficientBalance,
}

impl Error {
    /// The message the aborted invocation reports to its caller.
    pub fn message(&self) -> (r: &'static str)
        ensures
            *self == Error::Unauthorized ==> r@ == "Endpoint can only be called by owner"@,
            *self == Error::NoPayment ==> r@ == "Issuance requires a positive EGLD payment"@,
            *self == Error::NoEgldBalance ==> r@ == "contract has no egld"@,
            *self == Error::CooldownNotElapsed ==> r@
                == "You must wait one day before claiming a token again"@,
            *self == Error::InsufficientBalance ==> r@ == "Not enough tokens in the SC to claim"@,
    {
        match self {
            Error::Unauthorized => "Endpoint can only be called by owner",
            Error::NoPayment => "Issuance requires a positive EGLD payment",
            Error::NoEgldBalance => "contract has no egld",
            Error::CooldownNotElapsed => "You must wait one day before claiming a token again",
            Error::InsufficientBalance => "Not enough tokens in the SC to claim",
        }
    }
}

/// The per-call context the execution environment supplies: who calls, who
/// owns the contract, the block timestamp, and the payment attached to the call.
#[derive(Clone, Copy, Debug, PartialEq, Eq, Structural)]
pub struct Env {
    /// The account invoking the operation.
    pub caller: Address,
    /// The contract owner.
    pub owner: Address,
    /// The current block timestamp, in seconds since the epoch.
    pub timestamp: u64,
    /// The token attached as payment to this call (the native currency when
    /// no payment is attached).
    pub payment_token: TokenId,
    /// The amount attached as payment to this call (0 when none is attached).
    pub payment_amount: u128,
}

/// An outgoing transfer instruction handed to the execution environment,
/// which alone moves balances.
#[derive(Clone, Copy, Debug, PartialEq, Eq, Structural)]
pub struct Transfer {
    /// The recipient.
    pub to: Address,
    /// The token to move.
    pub token: TokenId,
    /// How many base units to move.
    pub amount: u128,
}

/// The property set a token is registered with.
#[derive(Clone, Copy, Debug, PartialEq, Eq, Structural)]
pub struct TokenProperties {
    pub can_burn: bool,
    pub can_mint: bool,
    pub num_decimals: usize,
    pub can_freeze: bool,
    pub can_wipe: bool,
    pub can_pause: bool,
    pub can_change_owner: bool,
    pub can_upgrade: bool,
    pub can_add_special_roles: bool,
}

/// An issuance request handed to the platform's token registry: the forwarded
/// fee, the token's name and ticker, and the fixed supply and properties.
/// The fee doubles as the correlation the completion handler is resolved with.
#[derive(Clone, Debug)]
pub struct IssueRequest {
    /// The native-currency fee forwarded to the registry.
    pub fee: u128,
    /// The display name of the requested token.
    pub name: Vec<u8>,
    /// The ticker of the requested token.
    pub ticker: Vec<u8>,
    /// The total supply to mint, in base units.
    pub supply: u128,
    /// The fixed property set of the requested token.
    pub properties: TokenProperties,
}

/// What the token registry reports back to the completion handler.
#[derive(Clone, Copy, Debug, PartialEq, Eq, Structural)]
pub enum IssueResult {
    /// The registry minted the token and named it with this identifier.
    Issued(TokenId),
    /// The registry rejected the request; the fee comes back as the payment
    /// attached to the completion call.
    Failed,
}

} // verus!
