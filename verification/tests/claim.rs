use devnet_faucet::faucet::{DevNetFaucet, Faucet};
use devnet_faucet::treasury::Treasury;
use devnet_faucet::types::{Address, Env, Error, TokenId, Transfer, CLAIM_AMOUNT, ONE_DAY};

const OWNER: Address = Address { id: 1 };
const ALICE: Address = Address { id: 7 };
const BOB: Address = Address { id: 8 };
const TOKEN_X: TokenId = TokenId::Fungible(42);

fn env_at(caller: Address, timestamp: u64) -> Env {
    Env {
        caller,
        owner: OWNER,
        timestamp,
        payment_token: TokenId::Egld,
        payment_amount: 0,
    }
}

#[test]
fn first_claim_succeeds_and_drains_entire_balance() {
    let mut faucet = Faucet::init();
    let mut treasury = Treasury::new();
    let held: u128 = 1_500_000_000_000_000_000_000; // 1500 whole tokens: above the threshold
    treasury.deposit(TOKEN_X, held);

    let env = env_at(ALICE, ONE_DAY + 1);
    let transfer = faucet
        .claim_token(&env, TOKEN_X, treasury.balance(TOKEN_X))
        .unwrap();
    // the entire balance moves, not merely the fixed claim amount
    assert_eq!(
        transfer,
        Transfer {
            to: ALICE,
            token: TOKEN_X,
            amount: held,
        }
    );
    treasury.apply_transfer(&transfer);
    assert_eq!(treasury.balance(TOKEN_X), 0);
}

#[test]
fn claim_with_balance_exactly_at_threshold_succeeds() {
    let mut faucet = Faucet::init();
    let env = env_at(ALICE, ONE_DAY + 1);
    let transfer = faucet.claim_token(&env, TOKEN_X, CLAIM_AMOUNT).unwrap();
    assert_eq!(transfer.amount, CLAIM_AMOUNT);
}

#[test]
fn claim_below_threshold_fails_even_though_it_would_be_payable() {
    // treasury holds 500 whole tokens; the threshold is 1000 whole tokens
    let mut faucet = Faucet::init();
    let mut treasury = Treasury::new();
    treasury.deposit(TOKEN_X, 500_000_000_000_000_000_000);

    let env = env_at(ALICE, ONE_DAY + 1);
    let r = faucet.claim_token(&env, TOKEN_X, treasury.balance(TOKEN_X));
    assert_eq!(r, Err(Error::InsufficientBalance));
    // the rejected claim left no trace in the last-claim table
    assert_eq!(faucet.last_claim(ALICE, TOKEN_X), 0);
}

#[test]
fn gap_of_exactly_one_day_fails_one_more_unit_succeeds() {
    let mut faucet = Faucet::init();
    let t1 = ONE_DAY + 1;
    faucet
        .claim_token(&env_at(ALICE, t1), TOKEN_X, CLAIM_AMOUNT)
        .unwrap();

    // exactly 86,400 units later: not sufficient
    let r = faucet.claim_token(&env_at(ALICE, t1 + ONE_DAY), TOKEN_X, CLAIM_AMOUNT);
    assert_eq!(r, Err(Error::CooldownNotElapsed));

    // 86,400 + 1 units later: allowed again
    let transfer = faucet
        .claim_token(&env_at(ALICE, t1 + ONE_DAY + 1), TOKEN_X, CLAIM_AMOUNT)
        .unwrap();
    assert_eq!(transfer.amount, CLAIM_AMOUNT);
}

#[test]
fn first_ever_claim_still_waits_out_the_cooldown_from_zero() {
    // an absent table entry reads as 0, so a claim at time 86,400 is too early
    let mut faucet = Faucet::init();
    let r = faucet.claim_token(&env_at(ALICE, ONE_DAY), TOKEN_X, CLAIM_AMOUNT);
    assert_eq!(r, Err(Error::CooldownNotElapsed));
}

#[test]
fn successful_claim_records_timestamp_before_the_transfer_moves() {
    let mut faucet = Faucet::init();
    let t1 = 2 * ONE_DAY;
    let transfer = faucet
        .claim_token(&env_at(ALICE, t1), TOKEN_X, CLAIM_AMOUNT)
        .unwrap();

    // the table already shows the new timestamp while the transfer is still
    // pending, so a reentrant claim in the same instant is rejected
    assert_eq!(faucet.last_claim(ALICE, TOKEN_X), t1);
    let reentrant = faucet.claim_token(&env_at(ALICE, t1), TOKEN_X, CLAIM_AMOUNT);
    assert_eq!(reentrant, Err(Error::CooldownNotElapsed));

    // only then does the environment move the balance
    let mut treasury = Treasury::new();
    treasury.deposit(TOKEN_X, CLAIM_AMOUNT);
    treasury.apply_transfer(&transfer);
    assert_eq!(treasury.balance(TOKEN_X), 0);
}

#[test]
fn claims_are_tracked_per_account_and_per_token() {
    let mut faucet = Faucet::init();
    let t1 = ONE_DAY + 1;
    faucet
        .claim_token(&env_at(ALICE, t1), TOKEN_X, CLAIM_AMOUNT)
        .unwrap();

    // another account may claim the same token right away
    let by_bob = faucet.claim_token(&env_at(BOB, t1), TOKEN_X, CLAIM_AMOUNT);
    assert!(by_bob.is_ok());

    // the same account may claim another token right away
    let other = faucet.claim_token(&env_at(ALICE, t1), TokenId::Fungible(43), CLAIM_AMOUNT);
    assert!(other.is_ok());

    // and each pair keeps its own timestamp
    assert_eq!(faucet.last_claim(ALICE, TOKEN_X), t1);
    assert_eq!(faucet.last_claim(BOB, TOKEN_X), t1);
    assert_eq!(faucet.last_claim(ALICE, TokenId::Fungible(43)), t1);
    assert_eq!(faucet.last_claim(BOB, TokenId::Fungible(43)), 0);
}

#[test]
fn abort_messages_name_the_reason() {
    assert_eq!(
        Error::CooldownNotElapsed.message(),
        "You must wait one day before claiming a token again"
    );
    assert_eq!(
        Error::InsufficientBalance.message(),
        "Not enough tokens in the SC to claim"
    );
    assert_eq!(Error::NoEgldBalance.message(), "contract has no egld");
    assert_eq!(
        Error::Unauthorized.message(),
        "Endpoint can only be called by owner"
    );
    assert_eq!(
        Error::NoPayment.message(),
        "Issuance requires a positive EGLD payment"
    );
}

#[test]
fn repeated_claims_keep_strictly_increasing_timestamps() {
    let mut faucet = Faucet::init();
    let mut now = ONE_DAY + 1;
    for _ in 0..3 {
        faucet
            .claim_token(&env_at(ALICE, now), TOKEN_X, CLAIM_AMOUNT)
            .unwrap();
        assert_eq!(faucet.last_claim(ALICE, TOKEN_X), now);
        now += ONE_DAY + 1;
    }
}
