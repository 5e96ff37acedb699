//! An authority-gated, two-party escrow ledger.
//!
//! A buyer and a seller register an escrow record. Either party can release the
//! value it holds along the happy path, and one registered arbiter can close any
//! escrow in favour of either party. Every transition is a function from the
//! ledger and a request to the next ledger and a typed outcome.

pub mod identity;
pub mod error;
pub mod state;
pub mod context;
pub mod guard;
pub mod ledger;
pub mod address;
pub mod laws;

pub use identity::Identity;
pub use error::{EscrowError, LedgerError};
pub use state::{AuthorityRuling, AuthoritySettings, Escrow};
pub use context::{AccountRef, AuthorityOverride, CompleteSale, CreateEscrow, RefundBuyer, SetAuthority};
pub use guard::{require_authority, require_has_one, require_signer};
pub use ledger::{authority_override, complete_sale, create_escrow, refund_buyer, ruling_recipient, set_authority, Ledger};
pub use address::{authority_settings_address, escrow_address};
