//! The records the ledger keeps, and the transfers it is asked for.

use anchor_lang::prelude::Pubkey;
use vstd::prelude::*;

verus! {

/// The kind of an option contract.
#[derive(Clone, Copy, Debug, PartialEq, Eq, Structural)]
pub enum OptionType {
    /// The right to buy.
    Call,
    /// The right to sell.
    Put,
}

/// One option contract held in escrow.
#[derive(Clone, Copy, Debug, PartialEq, Eq)]
pub struct EscrowAccount {
    /// Who created the escrow; refunded when the option ends out of the money.
    pub initializer_key: Pubkey,
    pub option_type: OptionType,
    /// Recorded for the parties; no decision here depends on it.
    pub strike_price: u64,
    /// Unix time from which ordinary settlement is allowed.
    pub expiration: i64,
    /// The collateral backing the contract, fixed when the escrow is created.
    pub collateral_amount: u64,
    /// The asset the collateral is held in.
    pub collateral_mint: Pubkey,
    /// Set once, by settlement or early exercise, and never cleared.
    pub is_exercised: bool,
}

/// The protocol's parameters, one record per deployment.
#[derive(Clone, Copy, Debug, PartialEq, Eq)]
pub struct Governance {
    /// The fee in basis points.
    pub fee_rate: u64,
    /// The holding account that receives every fee.
    pub fee_collector: Pubkey,
    /// The only identity that may change this record.
    pub governance_authority: Pubkey,
}

/// A holding account as far as the rules read it: where it is and which
/// asset it holds.
#[derive(Clone, Copy, Debug, PartialEq, Eq)]
pub struct TokenAccount {
    pub key: Pubkey,
    pub mint: Pubkey,
}

/// A request to the ledger to move `amount` of `mint` between two holding
/// accounts, signed for by `authority`.
#[derive(Clone, Copy, Debug, PartialEq, Eq)]
pub struct Transfer {
    pub mint: Pubkey,
    pub from: Pubkey,
    pub to: Pubkey,
    pub authority: Pubkey,
    pub amount: u64,
}

/// The two transfers that end an escrow, in the order in which the ledger is
/// to carry them out.
#[derive(Clone, Copy, Debug, PartialEq, Eq)]
pub struct Settlement {
    /// The collateral less the fee, to whoever the outcome favours.
    pub payout: Transfer,
    /// The fee, to the fee collector.
    pub fee: Transfer,
}

impl Governance {
    /// The rate is at most one hundred per cent. Nothing enforces this when
    /// the rate is set; an operation that cannot take the fee out of the
    /// collateral is refused when it is attempted.
    pub open spec fn rate_in_bounds(self) -> bool {
        self.fee_rate <= 10000
    }
}

impl EscrowAccount {
    /// The same record with the exercise flag set.
    pub open spec fn exercised(self) -> EscrowAccount {
        EscrowAccount { is_exercised: true, ..self }
    }
}

} // verus!
