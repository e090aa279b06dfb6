//! Persistent protocol state: the escrow record describing one open offer,
//! the singleton authority record, and the error taxonomy.

use vstd::prelude::*;
use crate::keys::Pubkey;

verus! {

/// The escrow record: persistent descriptor of one open offer.
///
/// The record exists exactly while the offer is open: `initialize` creates
/// it, and exactly one of `execute` or `cancel` destroys it.  `custody_ref`
/// is the field `escrowed_x_tokens`; it and `y_amount` are fixed at creation
/// and never mutated.
#[derive(Clone, Copy)]
pub struct Escrow {
    /// The maker: the party who opened the offer and alone may cancel it.
    pub us: Pubkey,
    /// Address of the custody account holding the deposited asset X.
    pub escrowed_x_tokens: Pubkey,
    /// The asset type the maker wants in return (asset Y).
    pub y_mint: Pubkey,
    /// The exact amount of Y required to complete the trade.
    pub y_amount: u64,
}

/// The mathematical value of an escrow record: its addresses as byte
/// sequences together with the requested amount.
#[verifier::ext_equal]
pub ghost struct EscrowView {
    pub us: Seq<u8>,
    pub escrowed_x_tokens: Seq<u8>,
    pub y_mint: Seq<u8>,
    pub y_amount: u64,
}

impl View for Escrow {
    type V = EscrowView;

    open spec fn view(&self) -> EscrowView {
        EscrowView {
            us: self.us@,
            escrowed_x_tokens: self.escrowed_x_tokens@,
            y_mint: self.y_mint@,
            y_amount: self.y_amount,
        }
    }
}

/// The singleton authority record: created once per deployment, never
/// mutated, never closed.  It stores the nonce byte from which the shared
/// custody-spending capability is re-derived.
#[derive(Clone, Copy)]
pub struct TheProgramAuthoritySingleton {
    /// The nonce byte of the derived signing capability.
    pub authority_bump: u8,
}

/// Why an operation was rejected.  Every precondition is checked before any
/// balance moves, and the first violated check decides the error; a rejected
/// operation changes no account.
#[derive(Clone, Copy, Debug, PartialEq, Eq, Structural)]
pub enum EscrowError {
    /// Missing or wrong signer, maker/taker mismatch, or a capability that
    /// does not re-derive to the recorded custody authority.
    Authorization,
    /// A supplied account does not match the reference stored for it, or an
    /// account's asset type does not match the expected asset.
    Reference,
    /// A destination account is not owned by the party entitled to receive
    /// into it.
    Ownership,
    /// The operation targets a record or account that does not exist: the
    /// offer was never opened, or was already consumed.
    State,
    /// A source account holds less than the amount to move, or a destination
    /// balance would exceed the representable maximum.
    Resource,
}

} // verus!
