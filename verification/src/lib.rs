//! Escrow and settlement of collateral-backed option contracts.
//!
//! The crate decides; it moves no tokens itself. Every operation checks the
//! records it is given, computes the protocol fee, and returns the transfers
//! that the ledger is to carry out, together with the records' next state.
//! The caller hands in the time and the records as it read them, has the
//! ledger carry out the transfers in the order given, and keeps the new
//! records only if every transfer went through.

pub mod error;
pub mod escrow;
pub mod fees;
pub mod governance;
pub mod keys;
pub mod state;

pub use error::{ErrorCode, ErrorKind};
pub use escrow::{
    deposit_collateral, exercise_early, initialize_escrow, settle_escrow, DepositCollateral,
    InitializeEscrow, SettleEscrow,
};
pub use fees::{compute_fee, deduct_fee, FeeSplit, BASIS_POINTS};
pub use governance::{
    initialize_governance, transfer_governance, update_governance, InitializeGovernance,
    UpdateGovernance,
};
pub use state::{EscrowAccount, Governance, OptionType, Settlement, TokenAccount, Transfer};
