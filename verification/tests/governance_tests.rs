use one_kx_hook::errors::HookError;
use one_kx_hook::governance::{
    cancel_wallet_cap_update, execute_wallet_cap_update, migrate_config,
    propose_wallet_cap_update, update_governance_authority, GovernanceAuthorityUpdated,
    WalletCapUpdateProposed,
};
use one_kx_hook::identity::Identity;
use one_kx_hook::policy::{
    initialize, HookConfig, MAX_REASONABLE_CAP, TIMELOCK_DURATION_SECONDS, WALLET_CAP_RAW,
};

fn id(tag: u64) -> Identity {
    Identity { w0: tag, w1: tag + 1, w2: tag + 2, w3: tag + 3 }
}

#[test]
fn propose_records_pending_update() {
    let authority = id(1);
    let mut config = initialize(id(10), authority);
    let record = propose_wallet_cap_update(&mut config, 7_000_000_000, 1_000, authority).unwrap();

    assert_eq!(
        record,
        WalletCapUpdateProposed {
            new_cap: 7_000_000_000,
            current_cap: WALLET_CAP_RAW,
            proposed_at: 1_000,
            execution_time: 1_000 + TIMELOCK_DURATION_SECONDS,
            governance_authority: authority,
        }
    );
    let pending = config.pending_cap_update.unwrap();
    assert_eq!(pending.new_cap, 7_000_000_000);
    assert_eq!(pending.proposed_at, 1_000);
    assert_eq!(pending.execution_time, 1_000 + TIMELOCK_DURATION_SECONDS);
    // The live cap is untouched until the update is executed.
    assert_eq!(config.wallet_cap_raw, WALLET_CAP_RAW);
}

#[test]
fn propose_rejects_invalid_caps() {
    let authority = id(1);
    let mut config = initialize(id(10), authority);

    let zero = propose_wallet_cap_update(&mut config, 0, 1_000, authority);
    assert_eq!(zero, Err(HookError::InvalidWalletCap));
    assert_eq!(config.pending_cap_update, None);

    let ceiling = propose_wallet_cap_update(&mut config, MAX_REASONABLE_CAP, 1_000, authority);
    assert!(ceiling.is_ok());

    let over = propose_wallet_cap_update(&mut config, MAX_REASONABLE_CAP + 1, 2_000, authority);
    assert_eq!(over, Err(HookError::InvalidWalletCap));
    // The failing proposal left the earlier one in place.
    assert_eq!(config.pending_cap_update.unwrap().new_cap, MAX_REASONABLE_CAP);
}

#[test]
fn timelock_gates_execution() {
    let authority = id(1);
    let mut config = initialize(id(10), authority);
    let proposed_at = 50_000i64;
    propose_wallet_cap_update(&mut config, 9_000_000_000, proposed_at, authority).unwrap();

    // One second before the execution time: still locked.
    let early = execute_wallet_cap_update(
        &mut config,
        proposed_at + TIMELOCK_DURATION_SECONDS - 1,
        authority,
    );
    assert_eq!(early, Err(HookError::TimelockNotExpired));
    assert_eq!(config.wallet_cap_raw, WALLET_CAP_RAW);
    assert!(config.pending_cap_update.is_some());

    // Exactly at the execution time: the cap changes and nothing is in flight.
    let on_time = execute_wallet_cap_update(
        &mut config,
        proposed_at + TIMELOCK_DURATION_SECONDS,
        authority,
    )
    .unwrap();
    assert_eq!(on_time.old_cap, WALLET_CAP_RAW);
    assert_eq!(on_time.new_cap, 9_000_000_000);
    assert_eq!(config.wallet_cap_raw, 9_000_000_000);
    assert_eq!(config.pending_cap_update, None);
}

#[test]
fn later_proposal_supersedes_earlier() {
    let authority = id(1);
    let mut config = initialize(id(10), authority);
    propose_wallet_cap_update(&mut config, 7_000_000_000, 1_000, authority).unwrap();
    propose_wallet_cap_update(&mut config, 8_000_000_000, 2_000, authority).unwrap();

    // Exactly one update is in flight: the second; the first is discarded.
    let pending = config.pending_cap_update.unwrap();
    assert_eq!(pending.new_cap, 8_000_000_000);
    assert_eq!(pending.proposed_at, 2_000);
    assert_eq!(pending.execution_time, 2_000 + TIMELOCK_DURATION_SECONDS);
}

#[test]
fn cancel_blocks_execution() {
    let authority = id(1);
    let mut config = initialize(id(10), authority);
    propose_wallet_cap_update(&mut config, 7_000_000_000, 1_000, authority).unwrap();

    let cancelled = cancel_wallet_cap_update(&mut config, 1_500, authority).unwrap();
    assert_eq!(cancelled.canceled_cap, 7_000_000_000);
    assert_eq!(cancelled.current_cap, WALLET_CAP_RAW);
    assert_eq!(config.pending_cap_update, None);

    let executed = execute_wallet_cap_update(
        &mut config,
        1_000 + TIMELOCK_DURATION_SECONDS,
        authority,
    );
    assert_eq!(executed, Err(HookError::NoPendingUpdate));
    assert_eq!(config.wallet_cap_raw, WALLET_CAP_RAW);
}

#[test]
fn execute_and_cancel_need_a_pending_update() {
    let authority = id(1);
    let mut config = initialize(id(10), authority);
    assert_eq!(
        execute_wallet_cap_update(&mut config, 1_000, authority),
        Err(HookError::NoPendingUpdate)
    );
    assert_eq!(
        cancel_wallet_cap_update(&mut config, 1_000, authority),
        Err(HookError::NoPendingUpdate)
    );
}

#[test]
fn unauthorized_governance_is_rejected() {
    let authority = id(1);
    let intruder = id(99);
    let mut config = initialize(id(10), authority);
    propose_wallet_cap_update(&mut config, 7_000_000_000, 1_000, authority).unwrap();
    let before = config;

    assert_eq!(
        propose_wallet_cap_update(&mut config, 8_000_000_000, 2_000, intruder),
        Err(HookError::UnauthorizedGovernance)
    );
    assert_eq!(
        execute_wallet_cap_update(&mut config, 2_000 + TIMELOCK_DURATION_SECONDS, intruder),
        Err(HookError::UnauthorizedGovernance)
    );
    assert_eq!(
        cancel_wallet_cap_update(&mut config, 2_000, intruder),
        Err(HookError::UnauthorizedGovernance)
    );
    assert_eq!(
        update_governance_authority(&mut config, intruder, 2_000, intruder),
        Err(HookError::UnauthorizedGovernance)
    );
    assert_eq!(
        migrate_config(&mut config, 2, 2_000, intruder),
        Err(HookError::UnauthorizedGovernance)
    );

    // No state change from any of the rejected calls.
    assert_eq!(config, before);
}

#[test]
fn authority_rotation_is_immediate() {
    let authority = id(1);
    let successor = id(2);
    let mut config = initialize(id(10), authority);

    let record = update_governance_authority(&mut config, successor, 3_000, authority).unwrap();
    assert_eq!(
        record,
        GovernanceAuthorityUpdated {
            old_authority: authority,
            new_authority: successor,
            updated_at: 3_000,
        }
    );
    assert_eq!(config.governance_authority, successor);

    // The old authority lost its powers at once; the successor holds them.
    assert_eq!(
        propose_wallet_cap_update(&mut config, 7_000_000_000, 3_000, authority),
        Err(HookError::UnauthorizedGovernance)
    );
    assert!(propose_wallet_cap_update(&mut config, 7_000_000_000, 3_000, successor).is_ok());
}

#[test]
fn migration_paths_are_gated() {
    let authority = id(1);
    let mut config = initialize(id(10), authority);

    // Not an increase of the schema version.
    assert_eq!(
        migrate_config(&mut config, 1, 1_000, authority),
        Err(HookError::InvalidMigrationVersion)
    );
    assert_eq!(
        migrate_config(&mut config, 0, 1_000, authority),
        Err(HookError::InvalidMigrationVersion)
    );

    // Above the supported ceiling.
    assert_eq!(
        migrate_config(&mut config, 2, 1_000, authority),
        Err(HookError::UnsupportedVersion)
    );

    // In range, but no transform registered for the step.
    let mut stale = HookConfig { version: 0, ..config };
    assert_eq!(
        migrate_config(&mut stale, 1, 1_000, authority),
        Err(HookError::UnsupportedMigration)
    );

    assert_eq!(config.version, 1);
    assert_eq!(stale.version, 0);
}
