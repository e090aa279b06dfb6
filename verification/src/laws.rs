//! The protocol's guarantees, stated and proved once over the operation
//! specifications in `ops`.

use vstd::prelude::*;
use crate::accounts::Cancel;
use crate::accounts::Execute;
use crate::accounts::Initialize;
use crate::authority::authority_key;
use crate::ops::cancel_effect;
use crate::ops::cancel_error;
use crate::ops::execute_effect;
use crate::ops::execute_error;
use crate::ops::initialize_effect;
use crate::ops::initialize_error;
use crate::state::EscrowError;

verus! {

/// Atomic execute: whenever `execute` succeeds, the taker's X balance grows
/// by exactly the custody account's pre-call balance, the maker's Y balance
/// grows by exactly the requested amount, the taker pays exactly the
/// requested amount, and the record and the custody account are gone.  Both
/// legs are two faces of the one effect: no bundle with only one leg
/// transferred is ever a result of `execute`.
pub proof fn atomic_execute(e: Execute, authority_bump: u8)
    requires
        execute_error(e, authority_bump) is None,
    ensures
        execute_effect(e).their_x_tokens.amount == e.their_x_tokens.amount
            + e.escrowed_x_tokens.unwrap().amount,
        execute_effect(e).our_y_tokens.amount == e.our_y_tokens.amount
            + e.escrow.unwrap().y_amount,
        execute_effect(e).their_y_tokens.amount == e.their_y_tokens.amount
            - e.escrow.unwrap().y_amount,
        execute_effect(e).escrow is None,
        execute_effect(e).escrowed_x_tokens is None,
{
}

/// Exclusive custody: whenever `initialize` succeeds, the custody account
/// holds exactly the deposit, exactly the deposit has left the maker's
/// source account, and the custody account's only spending authority is the
/// derived capability — the maker keeps no direct spending ability over the
/// deposited asset.
pub proof fn initialize_takes_exclusive_custody(
    b: Initialize,
    authority_bump: u8,
    x_amount: u64,
    y_amount: u64,
)
    requires
        initialize_error(b, authority_bump, x_amount) is None,
    ensures
        initialize_effect(b, authority_bump, x_amount, y_amount).escrowed_x_tokens.unwrap().amount
            == x_amount,
        initialize_effect(b, authority_bump, x_amount, y_amount).our_x_tokens.amount
            == b.our_x_tokens.amount - x_amount,
        initialize_effect(b, authority_bump, x_amount, y_amount).escrowed_x_tokens.unwrap().owner@
            == authority_key(authority_bump),
        initialize_effect(b, authority_bump, x_amount, y_amount).escrow.unwrap().escrowed_x_tokens@
            == initialize_effect(
            b,
            authority_bump,
            x_amount,
            y_amount,
        ).escrowed_x_tokens.unwrap().key@,
{
}

/// Cancel round-trip: if `initialize` succeeds and the maker then hands the
/// record, the custody account and the same source account to `cancel`,
/// `cancel` succeeds and the maker's X balance is exactly what it was before
/// `initialize`; no record and no custody account are left behind.
pub proof fn cancel_round_trip(
    b: Initialize,
    cn: Cancel,
    authority_bump: u8,
    x_amount: u64,
    y_amount: u64,
)
    requires
        initialize_error(b, authority_bump, x_amount) is None,
        cn.us == b.us,
        cn.escrow == initialize_effect(b, authority_bump, x_amount, y_amount).escrow,
        cn.escrowed_x_tokens == initialize_effect(
            b,
            authority_bump,
            x_amount,
            y_amount,
        ).escrowed_x_tokens,
        cn.our_x_tokens == initialize_effect(b, authority_bump, x_amount, y_amount).our_x_tokens,
        cn.program_authority == b.program_authority,
    ensures
        cancel_error(cn, authority_bump) is None,
        cancel_effect(cn).our_x_tokens.amount == b.our_x_tokens.amount,
        cancel_effect(cn).escrow is None,
        cancel_effect(cn).escrowed_x_tokens is None,
{
}

/// No double-spend, after `execute`: a successful `execute` leaves the
/// record absent, so any later `execute` or `cancel` that meets the offer as
/// it left it fails with a state error, whatever nonce byte it supplies.
pub proof fn no_double_spend_after_execute(
    e1: Execute,
    bump1: u8,
    e2: Execute,
    cn2: Cancel,
    bump2: u8,
)
    requires
        execute_error(e1, bump1) is None,
        e2.escrow == execute_effect(e1).escrow,
        cn2.escrow == execute_effect(e1).escrow,
    ensures
        execute_error(e2, bump2) == Some(EscrowError::State),
        cancel_error(cn2, bump2) == Some(EscrowError::State),
{
}

/// No double-spend, after `cancel`: a successful `cancel` leaves the record
/// absent, so any later `execute` or `cancel` that meets the offer as it
/// left it fails with a state error, whatever nonce byte it supplies.
pub proof fn no_double_spend_after_cancel(
    cn1: Cancel,
    bump1: u8,
    e2: Execute,
    cn2: Cancel,
    bump2: u8,
)
    requires
        cancel_error(cn1, bump1) is None,
        e2.escrow == cancel_effect(cn1).escrow,
        cn2.escrow == cancel_effect(cn1).escrow,
    ensures
        execute_error(e2, bump2) == Some(EscrowError::State),
        cancel_error(cn2, bump2) == Some(EscrowError::State),
{
}

/// Authorization enforcement: while the offer is open, `cancel` submitted by
/// any identity other than the recorded maker fails with an authorization
/// error, however well-formed every other account is.
pub proof fn cancel_requires_maker(cn: Cancel, authority_bump: u8)
    requires
        cn.escrow is Some,
        cn.escrowed_x_tokens is Some,
        cn.us@ != cn.escrow.unwrap().us@,
    ensures
        cancel_error(cn, authority_bump) == Some(EscrowError::Authorization),
{
}

/// Reference substitution rejection: while the offer is open, `execute`
/// supplied with any custody account other than the one the record names
/// fails with a reference error, however well the asset types line up.
pub proof fn execute_rejects_substituted_custody(e: Execute, authority_bump: u8)
    requires
        e.escrow is Some,
        e.escrowed_x_tokens is Some,
        e.escrowed_x_tokens.unwrap().key@ != e.escrow.unwrap().escrowed_x_tokens@,
    ensures
        execute_error(e, authority_bump) == Some(EscrowError::Reference),
{
}

} // verus!
