use anchor_lang::prelude::Pubkey;
use options_escrow::{
    initialize_governance, transfer_governance, update_governance, ErrorCode, Governance,
    InitializeGovernance, UpdateGovernance,
};

fn key(tag: u8) -> Pubkey {
    Pubkey::new_from_array([tag; 32])
}

fn record() -> Governance {
    Governance { fee_rate: 500, fee_collector: key(40), governance_authority: key(50) }
}

#[test]
fn creator_becomes_the_authority() {
    let mut ctx = InitializeGovernance {
        governance: Governance {
            fee_rate: 9,
            fee_collector: key(1),
            governance_authority: key(2),
        },
        governance_authority: key(50),
    };
    assert_eq!(initialize_governance(&mut ctx, 500, key(40)), Ok(()));
    assert_eq!(ctx.governance, record());
    assert_eq!(ctx.governance_authority, key(50));
}

#[test]
fn any_rate_is_taken_at_creation() {
    for fee_rate in [0, 10_000, 10_001, u64::MAX] {
        let mut ctx = InitializeGovernance { governance: record(), governance_authority: key(7) };
        assert_eq!(initialize_governance(&mut ctx, fee_rate, key(8)), Ok(()));
        assert_eq!(
            ctx.governance,
            Governance { fee_rate, fee_collector: key(8), governance_authority: key(7) }
        );
    }
}

#[test]
fn authority_updates_both_parameters() {
    let mut ctx = UpdateGovernance { governance: record(), governance_authority: key(50) };
    assert_eq!(update_governance(&mut ctx, 250, key(41)), Ok(()));
    assert_eq!(
        ctx.governance,
        Governance { fee_rate: 250, fee_collector: key(41), governance_authority: key(50) }
    );
    assert_eq!(ctx.governance_authority, key(50));
}

#[test]
fn update_takes_a_rate_above_full() {
    let mut ctx = UpdateGovernance { governance: record(), governance_authority: key(50) };
    assert_eq!(update_governance(&mut ctx, 10_001, key(40)), Ok(()));
    assert_eq!(ctx.governance.fee_rate, 10_001);
    assert_eq!(update_governance(&mut ctx, u64::MAX, key(40)), Ok(()));
    assert_eq!(ctx.governance.fee_rate, u64::MAX);
}

#[test]
fn update_by_a_stranger_is_refused_and_changes_nothing() {
    let before = UpdateGovernance { governance: record(), governance_authority: key(51) };
    let mut ctx = before;
    assert_eq!(update_governance(&mut ctx, 0, key(51)), Err(ErrorCode::Unauthorized));
    assert_eq!(ctx, before);
    assert_eq!(ctx.governance, record());
    // Not the fee collector either.
    ctx.governance_authority = key(40);
    assert_eq!(update_governance(&mut ctx, 0, key(40)), Err(ErrorCode::Unauthorized));
    assert_eq!(ctx.governance, record());
}

#[test]
fn handover_by_a_stranger_is_refused_and_changes_nothing() {
    let before = UpdateGovernance { governance: record(), governance_authority: key(51) };
    let mut ctx = before;
    assert_eq!(transfer_governance(&mut ctx, key(51)), Err(ErrorCode::Unauthorized));
    assert_eq!(ctx, before);
    assert_eq!(ctx.governance, record());
}

#[test]
fn handover_shuts_the_old_authority_out() {
    let mut ctx = UpdateGovernance { governance: record(), governance_authority: key(50) };
    assert_eq!(transfer_governance(&mut ctx, key(60)), Ok(()));
    assert_eq!(
        ctx.governance,
        Governance { fee_rate: 500, fee_collector: key(40), governance_authority: key(60) }
    );
    let handed_over = ctx.governance;

    // The old authority can neither update nor take the record back.
    assert_eq!(update_governance(&mut ctx, 1, key(50)), Err(ErrorCode::Unauthorized));
    assert_eq!(transfer_governance(&mut ctx, key(50)), Err(ErrorCode::Unauthorized));
    assert_eq!(ctx.governance, handed_over);

    // The new one can do both.
    let mut ctx = UpdateGovernance { governance: handed_over, governance_authority: key(60) };
    assert_eq!(update_governance(&mut ctx, 1, key(42)), Ok(()));
    assert_eq!(transfer_governance(&mut ctx, key(50)), Ok(()));
    assert_eq!(
        ctx.governance,
        Governance { fee_rate: 1, fee_collector: key(42), governance_authority: key(50) }
    );
}

#[test]
fn handover_to_oneself_keeps_the_authority() {
    let mut ctx = UpdateGovernance { governance: record(), governance_authority: key(50) };
    assert_eq!(transfer_governance(&mut ctx, key(50)), Ok(()));
    assert_eq!(ctx.governance, record());
    assert_eq!(update_governance(&mut ctx, 2, key(40)), Ok(()));
}
