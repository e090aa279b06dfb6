//! End-to-end scenarios for the three operations.

use escrow::{cancel, derive_authority, execute, initialize, key_eq};
use escrow::{Cancel, Escrow, EscrowError, Execute, Initialize, Pubkey, TokenAccount};

const BUMP: u8 = 42;

fn maker() -> Pubkey {
    Pubkey::filled(1)
}

fn taker() -> Pubkey {
    Pubkey::filled(2)
}

fn x_mint() -> Pubkey {
    Pubkey::filled(3)
}

fn y_mint() -> Pubkey {
    Pubkey::filled(4)
}

fn maker_x_key() -> Pubkey {
    Pubkey::filled(5)
}

fn custody_key() -> Pubkey {
    Pubkey::filled(6)
}

fn taker_y_key() -> Pubkey {
    Pubkey::filled(7)
}

fn taker_x_key() -> Pubkey {
    Pubkey::filled(8)
}

fn maker_y_key() -> Pubkey {
    Pubkey::filled(9)
}

/// An offer freshly opened: 100 units of X deposited, 50 units of Y wanted.
fn opened_offer() -> (Escrow, TokenAccount) {
    let mut b = Initialize {
        us: maker(),
        x_mint: x_mint(),
        y_mint: y_mint(),
        our_x_tokens: TokenAccount {
            key: maker_x_key(),
            mint: x_mint(),
            owner: maker(),
            amount: 100,
        },
        escrow: None,
        escrowed_x_tokens: None,
        escrowed_x_key: custody_key(),
        program_authority: derive_authority(BUMP),
    };
    let r = initialize(&mut b, BUMP, 100, 50);
    assert_eq!(r, Ok(()));
    assert_eq!(b.our_x_tokens.amount, 0);
    (b.escrow.unwrap(), b.escrowed_x_tokens.unwrap())
}

fn execute_bundle(esc: Escrow, cust: TokenAccount, taker_y_amount: u64) -> Execute {
    Execute {
        them: taker(),
        escrow: Some(esc),
        escrowed_x_tokens: Some(cust),
        their_y_tokens: TokenAccount {
            key: taker_y_key(),
            mint: y_mint(),
            owner: taker(),
            amount: taker_y_amount,
        },
        their_x_tokens: TokenAccount {
            key: taker_x_key(),
            mint: x_mint(),
            owner: taker(),
            amount: 0,
        },
        our_y_tokens: TokenAccount {
            key: maker_y_key(),
            mint: y_mint(),
            owner: maker(),
            amount: 0,
        },
        program_authority: derive_authority(BUMP),
    }
}

fn cancel_bundle(esc: Escrow, cust: TokenAccount, caller: Pubkey) -> Cancel {
    Cancel {
        us: caller,
        escrow: Some(esc),
        escrowed_x_tokens: Some(cust),
        our_x_tokens: TokenAccount {
            key: maker_x_key(),
            mint: x_mint(),
            owner: caller,
            amount: 0,
        },
        program_authority: derive_authority(BUMP),
    }
}

#[test]
fn initialize_creates_record_and_custody() {
    let (esc, cust) = opened_offer();
    assert!(key_eq(&esc.us, &maker()));
    assert!(key_eq(&esc.escrowed_x_tokens, &custody_key()));
    assert!(key_eq(&esc.y_mint, &y_mint()));
    assert_eq!(esc.y_amount, 50);
    assert!(key_eq(&cust.key, &custody_key()));
    assert!(key_eq(&cust.mint, &x_mint()));
    assert!(key_eq(&cust.owner, &derive_authority(BUMP)));
    assert_eq!(cust.amount, 100);
}

#[test]
fn initialize_rejects_insufficient_balance() {
    let mut b = Initialize {
        us: maker(),
        x_mint: x_mint(),
        y_mint: y_mint(),
        our_x_tokens: TokenAccount {
            key: maker_x_key(),
            mint: x_mint(),
            owner: maker(),
            amount: 99,
        },
        escrow: None,
        escrowed_x_tokens: None,
        escrowed_x_key: custody_key(),
        program_authority: derive_authority(BUMP),
    };
    assert_eq!(initialize(&mut b, BUMP, 100, 50), Err(EscrowError::Resource));
    assert_eq!(b.our_x_tokens.amount, 99);
    assert!(b.escrow.is_none());
}

#[test]
fn initialize_rejects_existing_record() {
    let (esc, cust) = opened_offer();
    let mut b = Initialize {
        us: maker(),
        x_mint: x_mint(),
        y_mint: y_mint(),
        our_x_tokens: TokenAccount {
            key: maker_x_key(),
            mint: x_mint(),
            owner: maker(),
            amount: 100,
        },
        escrow: Some(esc),
        escrowed_x_tokens: Some(cust),
        escrowed_x_key: custody_key(),
        program_authority: derive_authority(BUMP),
    };
    assert_eq!(initialize(&mut b, BUMP, 100, 50), Err(EscrowError::State));
}

#[test]
fn initialize_rejects_wrong_capability_nonce() {
    let mut b = Initialize {
        us: maker(),
        x_mint: x_mint(),
        y_mint: y_mint(),
        our_x_tokens: TokenAccount {
            key: maker_x_key(),
            mint: x_mint(),
            owner: maker(),
            amount: 100,
        },
        escrow: None,
        escrowed_x_tokens: None,
        escrowed_x_key: custody_key(),
        program_authority: derive_authority(BUMP),
    };
    assert_eq!(initialize(&mut b, BUMP + 1, 100, 50), Err(EscrowError::Authorization));
}

#[test]
fn execute_with_exact_y_completes_trade() {
    let (esc, cust) = opened_offer();
    let mut e = execute_bundle(esc, cust, 50);
    assert_eq!(execute(&mut e, BUMP), Ok(()));
    assert_eq!(e.their_x_tokens.amount, 100);
    assert_eq!(e.our_y_tokens.amount, 50);
    assert_eq!(e.their_y_tokens.amount, 0);
    assert!(e.escrow.is_none());
    assert!(e.escrowed_x_tokens.is_none());
}

#[test]
fn execute_with_insufficient_y_changes_nothing() {
    let (esc, cust) = opened_offer();
    let mut e = execute_bundle(esc, cust, 49);
    assert_eq!(execute(&mut e, BUMP), Err(EscrowError::Resource));
    assert_eq!(e.their_y_tokens.amount, 49);
    assert_eq!(e.their_x_tokens.amount, 0);
    assert_eq!(e.our_y_tokens.amount, 0);
    assert!(e.escrow.is_some());
    assert_eq!(e.escrowed_x_tokens.unwrap().amount, 100);
}

#[test]
fn execute_pays_live_custody_balance() {
    let (esc, mut cust) = opened_offer();
    // a custody balance topped up out of band is still paid out whole
    cust.amount = 175;
    let mut e = execute_bundle(esc, cust, 50);
    assert_eq!(execute(&mut e, BUMP), Ok(()));
    assert_eq!(e.their_x_tokens.amount, 175);
    assert_eq!(e.our_y_tokens.amount, 50);
}

#[test]
fn execute_rejects_substituted_custody_account() {
    let (esc, mut cust) = opened_offer();
    cust.key = Pubkey::filled(77);
    let mut e = execute_bundle(esc, cust, 50);
    assert_eq!(execute(&mut e, BUMP), Err(EscrowError::Reference));
    assert_eq!(e.their_y_tokens.amount, 50);
    assert_eq!(e.their_x_tokens.amount, 0);
}

#[test]
fn execute_rejects_wrong_y_asset() {
    let (esc, cust) = opened_offer();
    let mut e = execute_bundle(esc, cust, 50);
    e.their_y_tokens.mint = x_mint();
    assert_eq!(execute(&mut e, BUMP), Err(EscrowError::Reference));
}

#[test]
fn execute_rejects_maker_destination_not_owned_by_maker() {
    let (esc, cust) = opened_offer();
    let mut e = execute_bundle(esc, cust, 50);
    e.our_y_tokens.owner = taker();
    assert_eq!(execute(&mut e, BUMP), Err(EscrowError::Ownership));
}

#[test]
fn execute_rejects_wrong_capability_nonce() {
    let (esc, cust) = opened_offer();
    let mut e = execute_bundle(esc, cust, 50);
    assert_eq!(execute(&mut e, BUMP + 1), Err(EscrowError::Authorization));
}

#[test]
fn execute_rejects_consumed_offer() {
    let (esc, cust) = opened_offer();
    let mut e = execute_bundle(esc, cust, 50);
    assert_eq!(execute(&mut e, BUMP), Ok(()));
    let mut again = execute_bundle(esc, cust, 50);
    again.escrow = e.escrow;
    again.escrowed_x_tokens = e.escrowed_x_tokens;
    assert_eq!(execute(&mut again, BUMP), Err(EscrowError::State));
    let mut c = cancel_bundle(esc, cust, maker());
    c.escrow = e.escrow;
    c.escrowed_x_tokens = e.escrowed_x_tokens;
    assert_eq!(cancel(&mut c, BUMP), Err(EscrowError::State));
}

#[test]
fn cancel_returns_deposit_to_maker() {
    let (esc, cust) = opened_offer();
    let mut c = cancel_bundle(esc, cust, maker());
    assert_eq!(cancel(&mut c, BUMP), Ok(()));
    assert_eq!(c.our_x_tokens.amount, 100);
    assert!(c.escrow.is_none());
    assert!(c.escrowed_x_tokens.is_none());
}

#[test]
fn cancel_rejects_caller_other_than_maker() {
    let (esc, cust) = opened_offer();
    let mut c = cancel_bundle(esc, cust, taker());
    assert_eq!(cancel(&mut c, BUMP), Err(EscrowError::Authorization));
    assert_eq!(c.our_x_tokens.amount, 0);
    assert!(c.escrow.is_some());
}

#[test]
fn cancel_rejects_consumed_offer() {
    let (esc, cust) = opened_offer();
    let mut c = cancel_bundle(esc, cust, maker());
    assert_eq!(cancel(&mut c, BUMP), Ok(()));
    let mut again = cancel_bundle(esc, cust, maker());
    again.escrow = c.escrow;
    again.escrowed_x_tokens = c.escrowed_x_tokens;
    assert_eq!(cancel(&mut again, BUMP), Err(EscrowError::State));
    let mut e = execute_bundle(esc, cust, 50);
    e.escrow = c.escrow;
    e.escrowed_x_tokens = c.escrowed_x_tokens;
    assert_eq!(execute(&mut e, BUMP), Err(EscrowError::State));
}

#[test]
fn execute_rejects_overflowing_taker_x_balance() {
    let (esc, cust) = opened_offer();
    let mut e = execute_bundle(esc, cust, 50);
    e.their_x_tokens.amount = u64::MAX - 99;
    assert_eq!(execute(&mut e, BUMP), Err(EscrowError::Resource));
    assert_eq!(e.their_x_tokens.amount, u64::MAX - 99);
    assert!(e.escrow.is_some());
}

#[test]
fn cancel_rejects_overflowing_maker_x_balance() {
    let (esc, cust) = opened_offer();
    let mut c = cancel_bundle(esc, cust, maker());
    c.our_x_tokens.amount = u64::MAX - 99;
    assert_eq!(cancel(&mut c, BUMP), Err(EscrowError::Resource));
    assert!(c.escrow.is_some());
}

#[test]
fn cancel_rejects_substituted_custody_account() {
    let (esc, mut cust) = opened_offer();
    cust.key = Pubkey::filled(77);
    let mut c = cancel_bundle(esc, cust, maker());
    assert_eq!(cancel(&mut c, BUMP), Err(EscrowError::Reference));
}
