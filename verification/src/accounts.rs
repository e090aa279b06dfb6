//! The ledger model: token accounts and the account bundles each operation
//! touches.
//!
//! The surrounding ledger gives a transaction exclusive access to every
//! account it names, so an operation is modelled as a function over the
//! bundle of accounts it touches.  An account slot that may not exist — the
//! record and custody account an operation creates or destroys — is an
//! `Option`: `None` is the absent account, and absence is the only "closed"
//! state there is.

use vstd::prelude::*;
use crate::keys::Pubkey;
use crate::state::Escrow;

verus! {

/// A token account on the ledger: a balance of one asset type held at an
/// address, spendable only by its owner.
#[derive(Clone, Copy)]
pub struct TokenAccount {
    /// The address of this account.
    pub key: Pubkey,
    /// The asset type whose units this account holds.
    pub mint: Pubkey,
    /// The sole spending authority over this account.
    pub owner: Pubkey,
    /// The balance, in the asset's smallest unit.
    pub amount: u64,
}

/// The accounts `initialize` touches.  The maker `us` signs; the record and
/// custody slots must be empty and are filled; `x_amount` moves from
/// `our_x_tokens` into custody.
pub struct Initialize {
    /// The maker: the authenticated signer of the operation.
    pub us: Pubkey,
    /// The asset type the maker deposits (asset X).
    pub x_mint: Pubkey,
    /// The asset type the maker wants in return (asset Y).
    pub y_mint: Pubkey,
    /// The maker's source account for asset X.
    pub our_x_tokens: TokenAccount,
    /// The slot of the escrow record to be created; must be empty.
    pub escrow: Option<Escrow>,
    /// The slot of the custody account to be created; must be empty.
    pub escrowed_x_tokens: Option<TokenAccount>,
    /// The fresh address allocated for the custody account.
    pub escrowed_x_key: Pubkey,
    /// The supplied capability address; must re-derive from the nonce byte.
    pub program_authority: Pubkey,
}

/// The accounts `execute` touches.  The taker `them` signs; the whole
/// custody balance moves to `their_x_tokens`, the requested amount of Y
/// moves from `their_y_tokens` to `our_y_tokens`, and the record and custody
/// account are destroyed.
pub struct Execute {
    /// The taker: the authenticated signer of the operation.
    pub them: Pubkey,
    /// The escrow record of the offer; `None` if already consumed.
    pub escrow: Option<Escrow>,
    /// The custody account named by the record; `None` if already closed.
    pub escrowed_x_tokens: Option<TokenAccount>,
    /// The taker's source account for asset Y.
    pub their_y_tokens: TokenAccount,
    /// The taker's receiving account for asset X.
    pub their_x_tokens: TokenAccount,
    /// The maker's receiving account for asset Y.
    pub our_y_tokens: TokenAccount,
    /// The supplied capability address; must re-derive from the nonce byte.
    pub program_authority: Pubkey,
}

/// The accounts `cancel` touches.  The maker `us` signs; the whole custody
/// balance returns to `our_x_tokens`, and the record and custody account are
/// destroyed.
pub struct Cancel {
    /// The caller: the authenticated signer, who must be the recorded maker.
    pub us: Pubkey,
    /// The escrow record of the offer; `None` if already consumed.
    pub escrow: Option<Escrow>,
    /// The custody account named by the record; `None` if already closed.
    pub escrowed_x_tokens: Option<TokenAccount>,
    /// The maker's receiving account for asset X.
    pub our_x_tokens: TokenAccount,
    /// The supplied capability address; must re-derive from the nonce byte.
    pub program_authority: Pubkey,
}

} // verus!
