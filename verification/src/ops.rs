//! The three operation handlers: `initialize`, `execute`, `cancel`.
//!
//! Each handler validates every precondition before any balance moves; the
//! first violated check decides the error and the whole bundle is left
//! unchanged.  When every check passes the whole effect is applied in one
//! step.  The `*_error` spec functions state the checks in the order they
//! are made, and the `*_effect` spec functions state the new value of the
//! bundle; each handler's contract ties its result and its mutation to
//! exactly these two functions.

use vstd::prelude::*;
use crate::accounts::Cancel;
use crate::accounts::Execute;
use crate::accounts::Initialize;
use crate::accounts::TokenAccount;
use crate::authority::authority_key;
use crate::authority::derive_authority;
use crate::keys::key_eq;
use crate::state::Escrow;
use crate::state::EscrowError;

verus! {

/// The first check of `initialize` that fails, if any.
///
/// In order: the record and custody slots must be empty and the custody
/// address fresh (state); the supplied capability must re-derive from the
/// nonce byte, and the source account must be spendable by the maker
/// (authorization); the source account must hold asset X (reference); the
/// source balance must cover the deposit (resource).
pub open spec fn initialize_error(b: Initialize, authority_bump: u8, x_amount: u64) -> Option<
    EscrowError,
> {
    if b.escrow is Some || b.escrowed_x_tokens is Some {
        Some(EscrowError::State)
    } else if b.escrowed_x_key@ == b.our_x_tokens.key@ {
        Some(EscrowError::State)
    } else if b.program_authority@ != authority_key(authority_bump) {
        Some(EscrowError::Authorization)
    } else if b.our_x_tokens.owner@ != b.us@ {
        Some(EscrowError::Authorization)
    } else if b.our_x_tokens.mint@ != b.x_mint@ {
        Some(EscrowError::Reference)
    } else if b.our_x_tokens.amount < x_amount {
        Some(EscrowError::Resource)
    } else {
        None
    }
}

/// The bundle as a successful `initialize` leaves it: the record is created
/// from the inputs, the custody account is created holding exactly the
/// deposit with the derived capability as its only authority, and the
/// deposit has left the maker's source account.
pub open spec fn initialize_effect(
    b: Initialize,
    authority_bump: u8,
    x_amount: u64,
    y_amount: u64,
) -> Initialize {
    Initialize {
        our_x_tokens: TokenAccount {
            amount: (b.our_x_tokens.amount - x_amount) as u64,
            ..b.our_x_tokens
        },
        escrow: Some(
            Escrow {
                us: b.us,
                escrowed_x_tokens: b.escrowed_x_key,
                y_mint: b.y_mint,
                y_amount,
            },
        ),
        escrowed_x_tokens: Some(
            TokenAccount {
                key: b.escrowed_x_key,
                mint: b.x_mint,
                owner: b.program_authority,
                amount: x_amount,
            },
        ),
        ..b
    }
}

/// Open an offer: create the escrow record and the custody account, and move
/// exactly `x_amount` of asset X from the maker's source account into
/// custody.  On any violated precondition the operation aborts with the
/// first error and no account changes.
pub fn initialize(
    b: &mut Initialize,
    authority_bump: u8,
    x_amount: u64,
    y_amount: u64,
) -> (r: Result<(), EscrowError>)
    ensures
        (match initialize_error(*old(b), authority_bump, x_amount) {
            Some(e) => r == Err::<(), EscrowError>(e) && *final(b) == *old(b),
            None => r == Ok::<(), EscrowError>(()) && *final(b) == initialize_effect(
                *old(b),
                authority_bump,
                x_amount,
                y_amount,
            ),
        }),
{
    if b.escrow.is_some() || b.escrowed_x_tokens.is_some() {
        return Err(EscrowError::State);
    }
    if key_eq(&b.escrowed_x_key, &b.our_x_tokens.key) {
        return Err(EscrowError::State);
    }
    let derived = derive_authority(authority_bump);
    if !key_eq(&b.program_authority, &derived) {
        return Err(EscrowError::Authorization);
    }
    if !key_eq(&b.our_x_tokens.owner, &b.us) {
        return Err(EscrowError::Authorization);
    }
    if !key_eq(&b.our_x_tokens.mint, &b.x_mint) {
        return Err(EscrowError::Reference);
    }
    if b.our_x_tokens.amount < x_amount {
        return Err(EscrowError::Resource);
    }
    b.escrow = Some(
        Escrow { us: b.us, escrowed_x_tokens: b.escrowed_x_key, y_mint: b.y_mint, y_amount },
    );
    b.escrowed_x_tokens = Some(
        TokenAccount {
            key: b.escrowed_x_key,
            mint: b.x_mint,
            owner: b.program_authority,
            amount: x_amount,
        },
    );
    b.our_x_tokens.amount = b.our_x_tokens.amount - x_amount;
    Ok(())
}

/// Whether the four token accounts `execute` mutates sit at pairwise
/// distinct addresses, as the ledger's exclusive-access rule demands.
pub open spec fn execute_accounts_distinct(e: Execute) -> bool {
    let c = e.escrowed_x_tokens.unwrap();
    &&& c.key@ != e.their_y_tokens.key@
    &&& c.key@ != e.their_x_tokens.key@
    &&& c.key@ != e.our_y_tokens.key@
    &&& e.their_y_tokens.key@ != e.their_x_tokens.key@
    &&& e.their_y_tokens.key@ != e.our_y_tokens.key@
    &&& e.their_x_tokens.key@ != e.our_y_tokens.key@
}

/// The first check of `execute` that fails, if any.
///
/// In order: the record and the custody account must exist (state); the
/// supplied custody account must be the one the record names, every supplied
/// account must hold the expected asset, and the mutated accounts must be
/// distinct (reference); the maker's receiving account must belong to the
/// recorded maker (ownership); the capability must re-derive to the custody
/// authority and the taker must be able to spend the Y source
/// (authorization); the taker must hold the requested amount and neither
/// destination balance may overflow (resource).
pub open spec fn execute_error(e: Execute, authority_bump: u8) -> Option<EscrowError> {
    if e.escrow is None || e.escrowed_x_tokens is None {
        Some(EscrowError::State)
    } else {
        let esc = e.escrow.unwrap();
        let c = e.escrowed_x_tokens.unwrap();
        if c.key@ != esc.escrowed_x_tokens@ {
            Some(EscrowError::Reference)
        } else if e.their_y_tokens.mint@ != esc.y_mint@ {
            Some(EscrowError::Reference)
        } else if e.their_x_tokens.mint@ != c.mint@ {
            Some(EscrowError::Reference)
        } else if e.our_y_tokens.mint@ != esc.y_mint@ {
            Some(EscrowError::Reference)
        } else if e.our_y_tokens.owner@ != esc.us@ {
            Some(EscrowError::Ownership)
        } else if e.program_authority@ != authority_key(authority_bump) {
            Some(EscrowError::Authorization)
        } else if c.owner@ != e.program_authority@ {
            Some(EscrowError::Authorization)
        } else if e.their_y_tokens.owner@ != e.them@ {
            Some(EscrowError::Authorization)
        } else if !execute_accounts_distinct(e) {
            Some(EscrowError::Reference)
        } else if e.their_y_tokens.amount < esc.y_amount {
            Some(EscrowError::Resource)
        } else if c.amount > u64::MAX - e.their_x_tokens.amount {
            Some(EscrowError::Resource)
        } else if esc.y_amount > u64::MAX - e.our_y_tokens.amount {
            Some(EscrowError::Resource)
        } else {
            None
        }
    }
}

/// The bundle as a successful `execute` leaves it: the whole live custody
/// balance has moved to the taker's X account, exactly the requested amount
/// of Y has moved from the taker to the maker, and the record and the
/// custody account are gone.
pub open spec fn execute_effect(e: Execute) -> Execute {
    let esc = e.escrow.unwrap();
    let c = e.escrowed_x_tokens.unwrap();
    Execute {
        escrow: None,
        escrowed_x_tokens: None,
        their_x_tokens: TokenAccount {
            amount: (e.their_x_tokens.amount + c.amount) as u64,
            ..e.their_x_tokens
        },
        their_y_tokens: TokenAccount {
            amount: (e.their_y_tokens.amount - esc.y_amount) as u64,
            ..e.their_y_tokens
        },
        our_y_tokens: TokenAccount {
            amount: (e.our_y_tokens.amount + esc.y_amount) as u64,
            ..e.our_y_tokens
        },
        ..e
    }
}

/// Complete the trade: pay the whole custody balance to the taker, pull
/// exactly the requested amount of Y from the taker to the maker, and
/// destroy the record and the custody account — all in one indivisible step.
/// On any violated precondition the operation aborts with the first error
/// and no account changes.
pub fn execute(e: &mut Execute, authority_bump: u8) -> (r: Result<(), EscrowError>)
    ensures
        (match execute_error(*old(e), authority_bump) {
            Some(err) => r == Err::<(), EscrowError>(err) && *final(e) == *old(e),
            None => r == Ok::<(), EscrowError>(()) && *final(e) == execute_effect(*old(e)),
        }),
{
    let (esc, c): (Escrow, TokenAccount) = match (&e.escrow, &e.escrowed_x_tokens) {
        (Some(esc), Some(c)) => (*esc, *c),
        _ => { return Err(EscrowError::State); },
    };
    if !key_eq(&c.key, &esc.escrowed_x_tokens) {
        return Err(EscrowError::Reference);
    }
    if !key_eq(&e.their_y_tokens.mint, &esc.y_mint) {
        return Err(EscrowError::Reference);
    }
    if !key_eq(&e.their_x_tokens.mint, &c.mint) {
        return Err(EscrowError::Reference);
    }
    if !key_eq(&e.our_y_tokens.mint, &esc.y_mint) {
        return Err(EscrowError::Reference);
    }
    if !key_eq(&e.our_y_tokens.owner, &esc.us) {
        return Err(EscrowError::Ownership);
    }
    let derived = derive_authority(authority_bump);
    if !key_eq(&e.program_authority, &derived) {
        return Err(EscrowError::Authorization);
    }
    if !key_eq(&c.owner, &e.program_authority) {
        return Err(EscrowError::Authorization);
    }
    if !key_eq(&e.their_y_tokens.owner, &e.them) {
        return Err(EscrowError::Authorization);
    }
    let distinct = !key_eq(&c.key, &e.their_y_tokens.key) && !key_eq(&c.key, &e.their_x_tokens.key)
        && !key_eq(&c.key, &e.our_y_tokens.key) && !key_eq(
        &e.their_y_tokens.key,
        &e.their_x_tokens.key,
    ) && !key_eq(&e.their_y_tokens.key, &e.our_y_tokens.key) && !key_eq(
        &e.their_x_tokens.key,
        &e.our_y_tokens.key,
    );
    if !distinct {
        return Err(EscrowError::Reference);
    }
    if e.their_y_tokens.amount < esc.y_amount {
        return Err(EscrowError::Resource);
    }
    if c.amount > u64::MAX - e.their_x_tokens.amount {
        return Err(EscrowError::Resource);
    }
    if esc.y_amount > u64::MAX - e.our_y_tokens.amount {
        return Err(EscrowError::Resource);
    }
    e.their_x_tokens.amount = e.their_x_tokens.amount + c.amount;
    e.their_y_tokens.amount = e.their_y_tokens.amount - esc.y_amount;
    e.our_y_tokens.amount = e.our_y_tokens.amount + esc.y_amount;
    e.escrow = None;
    e.escrowed_x_tokens = None;
    Ok(())
}

/// The first check of `cancel` that fails, if any.
///
/// In order: the record and the custody account must exist (state); the
/// caller must be the recorded maker (authorization); the supplied custody
/// account must be the one the record names, the receiving account must hold
/// the custody asset and sit at a distinct address (reference); the
/// receiving account must belong to the maker (ownership); the capability
/// must re-derive to the custody authority (authorization); the restored
/// balance may not overflow (resource).
pub open spec fn cancel_error(cn: Cancel, authority_bump: u8) -> Option<EscrowError> {
    if cn.escrow is None || cn.escrowed_x_tokens is None {
        Some(EscrowError::State)
    } else {
        let esc = cn.escrow.unwrap();
        let c = cn.escrowed_x_tokens.unwrap();
        if cn.us@ != esc.us@ {
            Some(EscrowError::Authorization)
        } else if c.key@ != esc.escrowed_x_tokens@ {
            Some(EscrowError::Reference)
        } else if cn.our_x_tokens.mint@ != c.mint@ {
            Some(EscrowError::Reference)
        } else if cn.our_x_tokens.owner@ != cn.us@ {
            Some(EscrowError::Ownership)
        } else if cn.program_authority@ != authority_key(authority_bump) {
            Some(EscrowError::Authorization)
        } else if c.owner@ != cn.program_authority@ {
            Some(EscrowError::Authorization)
        } else if c.key@ == cn.our_x_tokens.key@ {
            Some(EscrowError::Reference)
        } else if c.amount > u64::MAX - cn.our_x_tokens.amount {
            Some(EscrowError::Resource)
        } else {
            None
        }
    }
}

/// The bundle as a successful `cancel` leaves it: the whole custody balance
/// is back in the maker's receiving account, and the record and the custody
/// account are gone.
pub open spec fn cancel_effect(cn: Cancel) -> Cancel {
    let c = cn.escrowed_x_tokens.unwrap();
    Cancel {
        escrow: None,
        escrowed_x_tokens: None,
        our_x_tokens: TokenAccount {
            amount: (cn.our_x_tokens.amount + c.amount) as u64,
            ..cn.our_x_tokens
        },
        ..cn
    }
}

/// Withdraw the offer: return the whole custody balance to the maker and
/// destroy the record and the custody account.  Only the recorded maker may
/// cancel.  On any violated precondition the operation aborts with the first
/// error and no account changes.
pub fn cancel(cn: &mut Cancel, authority_bump: u8) -> (r: Result<(), EscrowError>)
    ensures
        (match cancel_error(*old(cn), authority_bump) {
            Some(err) => r == Err::<(), EscrowError>(err) && *final(cn) == *old(cn),
            None => r == Ok::<(), EscrowError>(()) && *final(cn) == cancel_effect(*old(cn)),
        }),
{
    let (esc, c): (Escrow, TokenAccount) = match (&cn.escrow, &cn.escrowed_x_tokens) {
        (Some(esc), Some(c)) => (*esc, *c),
        _ => { return Err(EscrowError::State); },
    };
    if !key_eq(&cn.us, &esc.us) {
        return Err(EscrowError::Authorization);
    }
    if !key_eq(&c.key, &esc.escrowed_x_tokens) {
        return Err(EscrowError::Reference);
    }
    if !key_eq(&cn.our_x_tokens.mint, &c.mint) {
        return Err(EscrowError::Reference);
    }
    if !key_eq(&cn.our_x_tokens.owner, &cn.us) {
        return Err(EscrowError::Ownership);
    }
    let derived = derive_authority(authority_bump);
    if !key_eq(&cn.program_authority, &derived) {
        return Err(EscrowError::Authorization);
    }
    if !key_eq(&c.owner, &cn.program_authority) {
        return Err(EscrowError::Authorization);
    }
    if key_eq(&c.key, &cn.our_x_tokens.key) {
        return Err(EscrowError::Reference);
    }
    if c.amount > u64::MAX - cn.our_x_tokens.amount {
        return Err(EscrowError::Resource);
    }
    cn.our_x_tokens.amount = cn.our_x_tokens.amount + c.amount;
    cn.escrow = None;
    cn.escrowed_x_tokens = None;
    Ok(())
}

} // verus!
