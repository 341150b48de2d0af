use devnet_faucet::faucet::Faucet;
use devnet_faucet::faucet::DevNetFaucet;
use devnet_faucet::settlement::{claim_and_settle, defund_egld_and_settle, defund_tokens_and_settle};
use devnet_faucet::treasury::Treasury;
use devnet_faucet::types::{Address, Env, Error, TokenId, CLAIM_AMOUNT, ONE_DAY};

const OWNER: Address = Address { id: 1 };
const ALICE: Address = Address { id: 7 };
const TOKEN_X: TokenId = TokenId::Fungible(42);

fn env_for(caller: Address, timestamp: u64) -> Env {
    Env {
        caller,
        owner: OWNER,
        timestamp,
        payment_token: TokenId::Egld,
        payment_amount: 0,
    }
}

#[test]
fn settled_claim_drains_the_token_and_only_that_token() {
    let mut faucet = Faucet::init();
    let mut treasury = Treasury::new();
    treasury.deposit(TOKEN_X, 2 * CLAIM_AMOUNT);
    treasury.deposit(TokenId::Egld, 9);

    let env = env_for(ALICE, ONE_DAY + 1);
    let transfer = claim_and_settle(&mut faucet, &mut treasury, &env, TOKEN_X).unwrap();
    assert_eq!(transfer.amount, 2 * CLAIM_AMOUNT); // the whole holding, not the fixed amount
    assert_eq!(treasury.balance(TOKEN_X), 0);
    assert_eq!(treasury.balance(TokenId::Egld), 9);
    assert_eq!(faucet.last_claim(ALICE, TOKEN_X), ONE_DAY + 1);
}

#[test]
fn settled_claim_below_threshold_moves_nothing() {
    // 500 whole tokens in the treasury, against a threshold of 1000
    let mut faucet = Faucet::init();
    let mut treasury = Treasury::new();
    treasury.deposit(TOKEN_X, 500_000_000_000_000_000_000);

    let env = env_for(ALICE, ONE_DAY + 1);
    let r = claim_and_settle(&mut faucet, &mut treasury, &env, TOKEN_X);
    assert_eq!(r, Err(Error::InsufficientBalance));
    assert_eq!(treasury.balance(TOKEN_X), 500_000_000_000_000_000_000);
    assert_eq!(faucet.last_claim(ALICE, TOKEN_X), 0);
}

#[test]
fn settled_egld_defund_leaves_an_empty_native_holding() {
    let faucet = Faucet::init();
    let mut treasury = Treasury::new();
    treasury.deposit(TokenId::Egld, 1234);

    let env = env_for(OWNER, 10);
    let transfer = defund_egld_and_settle(&faucet, &mut treasury, &env).unwrap();
    assert_eq!(transfer.to, OWNER);
    assert_eq!(transfer.amount, 1234);
    assert_eq!(treasury.balance(TokenId::Egld), 0);

    // a second defund finds nothing left
    let again = defund_egld_and_settle(&faucet, &mut treasury, &env);
    assert_eq!(again, Err(Error::NoEgldBalance));
}

#[test]
fn settled_token_defund_accepts_an_empty_holding() {
    let faucet = Faucet::init();
    let mut treasury = Treasury::new();

    let env = env_for(OWNER, 10);
    let transfer = defund_tokens_and_settle(&faucet, &mut treasury, &env, TOKEN_X).unwrap();
    assert_eq!(transfer.amount, 0);
    assert_eq!(treasury.balance(TOKEN_X), 0);
}

#[test]
fn settled_operations_reject_non_owners_untouched() {
    let mut faucet = Faucet::init();
    let mut treasury = Treasury::new();
    treasury.deposit(TokenId::Egld, 55);
    treasury.deposit(TOKEN_X, 66);

    let env = env_for(ALICE, 10);
    assert_eq!(
        defund_egld_and_settle(&faucet, &mut treasury, &env),
        Err(Error::Unauthorized)
    );
    assert_eq!(
        defund_tokens_and_settle(&faucet, &mut treasury, &env, TOKEN_X),
        Err(Error::Unauthorized)
    );
    assert_eq!(treasury.balance(TokenId::Egld), 55);
    assert_eq!(treasury.balance(TOKEN_X), 66);
    assert_eq!(faucet.last_claim(ALICE, TOKEN_X), 0);
}
