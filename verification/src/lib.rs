//! An atomic, trustless two-party token swap escrow.
//!
//! A maker deposits an amount of asset X into a custody account whose only
//! spending authority is a capability derived by the protocol itself, and
//! publishes the amount of asset Y wanted in return.  A taker may then
//! complete the trade in one indivisible step (X to the taker, Y to the
//! maker), or the maker may cancel and reclaim X.  The escrow record exists
//! exactly while the offer is open; `execute` and `cancel` are mutually
//! exclusive and each destroys the record.
//!
//! The ledger model: every operation receives the accounts it touches as
//! values, validates every precondition before any balance moves, and either
//! applies the whole effect or leaves every account unchanged.

pub mod accounts;
pub mod authority;
pub mod codec;
pub mod keys;
pub mod laws;
pub mod ops;
pub mod state;

pub use accounts::Cancel;
pub use accounts::Execute;
pub use accounts::Initialize;
pub use accounts::TokenAccount;
pub use authority::derive_authority;
pub use keys::Pubkey;
pub use keys::key_eq;
pub use ops::cancel;
pub use ops::execute;
pub use ops::initialize;
pub use state::Escrow;
pub use state::EscrowError;
pub use state::TheProgramAuthoritySingleton;
