//! The governance record: who may change the protocol's parameters, and how.

use crate::error::ErrorCode;
use crate::keys::same_key;
use crate::state::Governance;
use anchor_lang::prelude::Pubkey;
use vstd::prelude::*;

verus! {

/// What creating the governance record works on.
#[derive(Clone, Copy, Debug, PartialEq, Eq)]
pub struct InitializeGovernance {
    /// The record to fill. What it held before is of no account.
    pub governance: Governance,
    /// Who creates the record, and becomes its authority.
    pub governance_authority: Pubkey,
}

/// What a change to the governance record works on.
#[derive(Clone, Copy, Debug, PartialEq, Eq)]
pub struct UpdateGovernance {
    pub governance: Governance,
    /// Who asks for the change.
    pub governance_authority: Pubkey,
}

impl InitializeGovernance {
    /// The same accounts once the record holds the given parameters and names
    /// the caller as its authority.
    pub open spec fn created(self, fee_rate: u64, fee_collector: Pubkey) -> InitializeGovernance {
        InitializeGovernance {
            governance: Governance {
                fee_rate,
                fee_collector,
                governance_authority: self.governance_authority,
            },
            ..self
        }
    }
}

impl UpdateGovernance {
    /// Whether the caller is the authority the record names.
    pub open spec fn authorized(self) -> bool {
        self.governance.governance_authority == self.governance_authority
    }

    /// The same accounts once the record holds the new fee rate and fee
    /// collector.
    pub open spec fn updated(
        self,
        new_fee_rate: u64,
        new_fee_collector: Pubkey,
    ) -> UpdateGovernance {
        UpdateGovernance {
            governance: Governance {
                fee_rate: new_fee_rate,
                fee_collector: new_fee_collector,
                ..self.governance
            },
            ..self
        }
    }

    /// The same accounts once the record names the new authority.
    pub open spec fn handed_over(self, new_governance_authority: Pubkey) -> UpdateGovernance {
        UpdateGovernance {
            governance: Governance {
                governance_authority: new_governance_authority,
                ..self.governance
            },
            ..self
        }
    }
}

/// Creates the governance record with the given fee rate and fee collector,
/// and the caller as its authority. The rate is taken as given.
///
/// That the record is created once only is the ledger's to enforce.
pub fn initialize_governance(
    ctx: &mut InitializeGovernance,
    fee_rate: u64,
    fee_collector: Pubkey,
) -> (result: Result<(), ErrorCode>)
    ensures
        result is Ok,
        *final(ctx) == old(ctx).created(fee_rate, fee_collector),
{
    ctx.governance.fee_rate = fee_rate;
    ctx.governance.fee_collector = fee_collector;
    ctx.governance.governance_authority = ctx.governance_authority;
    Ok(())
}

/// Replaces the fee rate and the fee collector.
///
/// Refused with `Unauthorized`, and nothing changed, exactly where the caller
/// is not the record's authority. The new rate is taken as given, also above
/// one hundred per cent.
pub fn update_governance(
    ctx: &mut UpdateGovernance,
    new_fee_rate: u64,
    new_fee_collector: Pubkey,
) -> (result: Result<(), ErrorCode>)
    ensures
        match result {
            Ok(_) => {
                &&& old(ctx).authorized()
                &&& *final(ctx) == old(ctx).updated(new_fee_rate, new_fee_collector)
            },
            Err(e) => {
                &&& e == ErrorCode::Unauthorized
                &&& !old(ctx).authorized()
                &&& *final(ctx) == *old(ctx)
            },
        },
        !old(ctx).authorized() ==> result == Err::<(), ErrorCode>(ErrorCode::Unauthorized)
            && *final(ctx) == *old(ctx),
{
    if !same_key(&ctx.governance.governance_authority, &ctx.governance_authority) {
        return Err(ErrorCode::Unauthorized);
    }
    ctx.governance.fee_rate = new_fee_rate;
    ctx.governance.fee_collector = new_fee_collector;
    Ok(())
}

/// Hands the record over to a new authority, at once and for good: the old
/// authority can change nothing from then on.
///
/// Refused with `Unauthorized`, and nothing changed, exactly where the caller
/// is not the record's authority.
pub fn transfer_governance(
    ctx: &mut UpdateGovernance,
    new_governance_authority: Pubkey,
) -> (result: Result<(), ErrorCode>)
    ensures
        match result {
            Ok(_) => {
                &&& old(ctx).authorized()
                &&& *final(ctx) == old(ctx).handed_over(new_governance_authority)
            },
            Err(e) => {
                &&& e == ErrorCode::Unauthorized
                &&& !old(ctx).authorized()
                &&& *final(ctx) == *old(ctx)
            },
        },
        !old(ctx).authorized() ==> result == Err::<(), ErrorCode>(ErrorCode::Unauthorized)
            && *final(ctx) == *old(ctx),
{
    if !same_key(&ctx.governance.governance_authority, &ctx.governance_authority) {
        return Err(ErrorCode::Unauthorized);
    }
    ctx.governance.governance_authority = new_governance_authority;
    Ok(())
}

/// Whoever creates the record may change it afterwards.
pub proof fn lemma_creator_is_authorized(
    ctx: InitializeGovernance,
    fee_rate: u64,
    fee_collector: Pubkey,
)
    ensures
        (UpdateGovernance {
            governance: ctx.created(fee_rate, fee_collector).governance,
            governance_authority: ctx.governance_authority,
        }).authorized(),
{
}

/// A handover takes effect at once and cannot be taken back by the one who
/// made it: on the record as the handover leaves it, the new authority is
/// authorized, and the old one, unless it is the same identity, no longer is.
/// An update of the parameters leaves the authority as it was.
pub proof fn lemma_handover_is_final(
    ctx: UpdateGovernance,
    new_governance_authority: Pubkey,
    new_fee_rate: u64,
    new_fee_collector: Pubkey,
)
    requires
        ctx.authorized(),
    ensures
        (UpdateGovernance {
            governance: ctx.handed_over(new_governance_authority).governance,
            governance_authority: new_governance_authority,
        }).authorized(),
        new_governance_authority != ctx.governance_authority ==> !ctx.handed_over(
            new_governance_authority,
        ).authorized(),
        ctx.updated(new_fee_rate, new_fee_collector).authorized(),
{
}

} // verus!
