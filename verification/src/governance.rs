use vstd::prelude::*;

use crate::errors::HookError;
use crate::identity::Identity;
use crate::policy::{
    config_well_formed, HookConfig, PendingCapUpdate, MAX_REASONABLE_CAP,
    SUPPORTED_VERSION_CEILING, TIMELOCK_DURATION_SECONDS,
};

verus! {

// ---------------------------------------------------------------------------
// Audit records
//
// Every successful governance operation returns one of these; the host
// appends it to its audit log. They carry the before/after values and the
// ledger time of the change.
// ---------------------------------------------------------------------------

/// Audit record of a proposed cap change.
#[derive(Clone, Copy, PartialEq, Eq, Structural, Debug)]
pub struct WalletCapUpdateProposed {
    pub new_cap: u64,
    pub current_cap: u64,
    pub proposed_at: i64,
    pub execution_time: i64,
    pub governance_authority: Identity,
}

/// Audit record of an executed cap change.
#[derive(Clone, Copy, PartialEq, Eq, Structural, Debug)]
pub struct WalletCapUpdated {
    pub old_cap: u64,
    pub new_cap: u64,
    pub updated_at: i64,
    pub governance_authority: Identity,
}

/// Audit record of a cancelled cap change.
#[derive(Clone, Copy, PartialEq, Eq, Structural, Debug)]
pub struct WalletCapUpdateCanceled {
    pub canceled_cap: u64,
    pub current_cap: u64,
    pub canceled_at: i64,
    pub governance_authority: Identity,
}

/// Audit record of an authority rotation.
#[derive(Clone, Copy, PartialEq, Eq, Structural, Debug)]
pub struct GovernanceAuthorityUpdated {
    pub old_authority: Identity,
    pub new_authority: Identity,
    pub updated_at: i64,
}

/// Audit record of a schema migration.
#[derive(Clone, Copy, PartialEq, Eq, Structural, Debug)]
pub struct ConfigMigrated {
    pub old_version: u8,
    pub new_version: u8,
    pub migrated_at: i64,
    pub governance_authority: Identity,
}

// ---------------------------------------------------------------------------
// The state machine, as spec-level transitions
//
// Each governance operation either fails with an error and leaves the record
// as it was, or yields the new record together with its audit record. The
// executable operations below are proved to follow these transitions exactly.
// ---------------------------------------------------------------------------

/// Transition for proposing a cap change. A fresh proposal unconditionally
/// supersedes any unexecuted one; it does not require a prior cancel.
pub open spec fn spec_propose_wallet_cap_update(
    c: HookConfig,
    new_cap: u64,
    now: i64,
    caller: Identity,
) -> Result<(HookConfig, WalletCapUpdateProposed), HookError> {
    if caller != c.governance_authority {
        Err(HookError::UnauthorizedGovernance)
    } else if new_cap == 0 || new_cap > MAX_REASONABLE_CAP {
        Err(HookError::InvalidWalletCap)
    } else {
        let execution_time = (now + TIMELOCK_DURATION_SECONDS) as i64;
        let after = HookConfig {
            pending_cap_update: Some(
                PendingCapUpdate { new_cap, proposed_at: now, execution_time },
            ),
            ..c
        };
        let record = WalletCapUpdateProposed {
            new_cap,
            current_cap: c.wallet_cap_raw,
            proposed_at: now,
            execution_time,
            governance_authority: caller,
        };
        Ok((after, record))
    }
}

/// Transition for executing a pending cap change once the timelock expired.
pub open spec fn spec_execute_wallet_cap_update(
    c: HookConfig,
    now: i64,
    caller: Identity,
) -> Result<(HookConfig, WalletCapUpdated), HookError> {
    if caller != c.governance_authority {
        Err(HookError::UnauthorizedGovernance)
    } else {
        match c.pending_cap_update {
            None => Err(HookError::NoPendingUpdate),
            Some(pending) => if now < pending.execution_time {
                Err(HookError::TimelockNotExpired)
            } else {
                let after = HookConfig {
                    wallet_cap_raw: pending.new_cap,
                    pending_cap_update: None,
                    ..c
                };
                let record = WalletCapUpdated {
                    old_cap: c.wallet_cap_raw,
                    new_cap: pending.new_cap,
                    updated_at: now,
                    governance_authority: caller,
                };
                Ok((after, record))
            },
        }
    }
}

/// Transition for cancelling a pending cap change.
pub open spec fn spec_cancel_wallet_cap_update(
    c: HookConfig,
    now: i64,
    caller: Identity,
) -> Result<(HookConfig, WalletCapUpdateCanceled), HookError> {
    if caller != c.governance_authority {
        Err(HookError::UnauthorizedGovernance)
    } else {
        match c.pending_cap_update {
            None => Err(HookError::NoPendingUpdate),
            Some(pending) => {
                let after = HookConfig { pending_cap_update: None, ..c };
                let record = WalletCapUpdateCanceled {
                    canceled_cap: pending.new_cap,
                    current_cap: c.wallet_cap_raw,
                    canceled_at: now,
                    governance_authority: caller,
                };
                Ok((after, record))
            },
        }
    }
}

/// Transition for rotating the governance authority. Takes effect at once:
/// unlike cap changes, rotation is not timelocked.
pub open spec fn spec_update_governance_authority(
    c: HookConfig,
    new_governance_authority: Identity,
    now: i64,
    caller: Identity,
) -> Result<(HookConfig, GovernanceAuthorityUpdated), HookError> {
    if caller != c.governance_authority {
        Err(HookError::UnauthorizedGovernance)
    } else {
        let after = HookConfig { governance_authority: new_governance_authority, ..c };
        let record = GovernanceAuthorityUpdated {
            old_authority: c.governance_authority,
            new_authority: new_governance_authority,
            updated_at: now,
        };
        Ok((after, record))
    }
}

/// The migration registry: which schema steps have a registered transform.
/// None is registered yet — only the initial version exists — so every
/// migration fails until a future version adds an arm here.
pub open spec fn spec_has_migration_transform(from_version: u8, to_version: u8) -> bool {
    match (from_version, to_version) {
        _ => false,
    }
}

/// Transition for migrating the record's schema version. The target must
/// increase the version, be within the supported ceiling, and have a
/// registered transform for the step taken.
pub open spec fn spec_migrate_config(
    c: HookConfig,
    target_version: u8,
    now: i64,
    caller: Identity,
) -> Result<(HookConfig, ConfigMigrated), HookError> {
    if caller != c.governance_authority {
        Err(HookError::UnauthorizedGovernance)
    } else if target_version <= c.version {
        Err(HookError::InvalidMigrationVersion)
    } else if target_version > SUPPORTED_VERSION_CEILING {
        Err(HookError::UnsupportedVersion)
    } else if !spec_has_migration_transform(c.version, target_version) {
        Err(HookError::UnsupportedMigration)
    } else {
        let after = HookConfig { version: target_version, ..c };
        let record = ConfigMigrated {
            old_version: c.version,
            new_version: target_version,
            migrated_at: now,
            governance_authority: caller,
        };
        Ok((after, record))
    }
}

// ---------------------------------------------------------------------------
// Executable governance operations
// ---------------------------------------------------------------------------

/// Propose a new wallet cap, to take effect one timelock later. Overwrites
/// any unexecuted proposal. On failure the record is unchanged.
pub fn propose_wallet_cap_update(
    config: &mut HookConfig,
    new_cap: u64,
    now: i64,
    caller: Identity,
) -> (r: Result<WalletCapUpdateProposed, HookError>)
    requires
        now <= i64::MAX - TIMELOCK_DURATION_SECONDS,
    ensures
        (match spec_propose_wallet_cap_update(*old(config), new_cap, now, caller) {
            Ok((after, record)) => *final(config) == after && r == Ok::<
                WalletCapUpdateProposed,
                HookError,
            >(record),
            Err(e) => *final(config) == *old(config) && r == Err::<
                WalletCapUpdateProposed,
                HookError,
            >(e),
        }),
        config_well_formed(*old(config)) ==> config_well_formed(*final(config)),
{
    if caller != config.governance_authority {
        return Err(HookError::UnauthorizedGovernance);
    }
    if new_cap == 0 {
        return Err(HookError::InvalidWalletCap);
    }
    if new_cap > MAX_REASONABLE_CAP {
        return Err(HookError::InvalidWalletCap);
    }
    let execution_time = now + TIMELOCK_DURATION_SECONDS;
    config.pending_cap_update = Some(
        PendingCapUpdate { new_cap, proposed_at: now, execution_time },
    );
    Ok(
        WalletCapUpdateProposed {
            new_cap,
            current_cap: config.wallet_cap_raw,
            proposed_at: now,
            execution_time,
            governance_authority: caller,
        },
    )
}

/// Execute a previously proposed cap update once the timelock expired. On
/// success the pending cap becomes the live cap and nothing stays in flight.
/// On failure the record is unchanged.
pub fn execute_wallet_cap_update(
    config: &mut HookConfig,
    now: i64,
    caller: Identity,
) -> (r: Result<WalletCapUpdated, HookError>)
    ensures
        (match spec_execute_wallet_cap_update(*old(config), now, caller) {
            Ok((after, record)) => *final(config) == after && r == Ok::<
                WalletCapUpdated,
                HookError,
            >(record),
            Err(e) => *final(config) == *old(config) && r == Err::<WalletCapUpdated, HookError>(e),
        }),
        config_well_formed(*old(config)) ==> config_well_formed(*final(config)),
{
    if caller != config.governance_authority {
        return Err(HookError::UnauthorizedGovernance);
    }
    let pending = match config.pending_cap_update {
        None => {
            return Err(HookError::NoPendingUpdate);
        },
        Some(pending) => pending,
    };
    if now < pending.execution_time {
        return Err(HookError::TimelockNotExpired);
    }
    let old_cap = config.wallet_cap_raw;
    config.wallet_cap_raw = pending.new_cap;
    config.pending_cap_update = None;
    Ok(
        WalletCapUpdated {
            old_cap,
            new_cap: pending.new_cap,
            updated_at: now,
            governance_authority: caller,
        },
    )
}

/// Cancel a pending cap update. On failure the record is unchanged.
pub fn cancel_wallet_cap_update(
    config: &mut HookConfig,
    now: i64,
    caller: Identity,
) -> (r: Result<WalletCapUpdateCanceled, HookError>)
    ensures
        (match spec_cancel_wallet_cap_update(*old(config), now, caller) {
            Ok((after, record)) => *final(config) == after && r == Ok::<
                WalletCapUpdateCanceled,
                HookError,
            >(record),
            Err(e) => *final(config) == *old(config) && r == Err::<
                WalletCapUpdateCanceled,
                HookError,
            >(e),
        }),
        config_well_formed(*old(config)) ==> config_well_formed(*final(config)),
{
    if caller != config.governance_authority {
        return Err(HookError::UnauthorizedGovernance);
    }
    let canceled = match config.pending_cap_update {
        None => {
            return Err(HookError::NoPendingUpdate);
        },
        Some(pending) => pending,
    };
    config.pending_cap_update = None;
    Ok(
        WalletCapUpdateCanceled {
            canceled_cap: canceled.new_cap,
            current_cap: config.wallet_cap_raw,
            canceled_at: now,
            governance_authority: caller,
        },
    )
}

/// Rotate the governance authority, with immediate effect. On failure the
/// record is unchanged.
pub fn update_governance_authority(
    config: &mut HookConfig,
    new_governance_authority: Identity,
    now: i64,
    caller: Identity,
) -> (r: Result<GovernanceAuthorityUpdated, HookError>)
    ensures
        (match spec_update_governance_authority(
            *old(config),
            new_governance_authority,
            now,
            caller,
        ) {
            Ok((after, record)) => *final(config) == after && r == Ok::<
                GovernanceAuthorityUpdated,
                HookError,
            >(record),
            Err(e) => *final(config) == *old(config) && r == Err::<
                GovernanceAuthorityUpdated,
                HookError,
            >(e),
        }),
        config_well_formed(*old(config)) ==> config_well_formed(*final(config)),
{
    if caller != config.governance_authority {
        return Err(HookError::UnauthorizedGovernance);
    }
    let old_authority = config.governance_authority;
    config.governance_authority = new_governance_authority;
    Ok(
        GovernanceAuthorityUpdated {
            old_authority,
            new_authority: new_governance_authority,
            updated_at: now,
        },
    )
}

/// Migrate the record to a newer schema version. Fails unless a transform is
/// registered for the step; none is yet, so every call fails — intentional
/// forward scaffolding for future versions. On failure the record is
/// unchanged.
pub fn migrate_config(
    config: &mut HookConfig,
    target_version: u8,
    now: i64,
    caller: Identity,
) -> (r: Result<ConfigMigrated, HookError>)
    ensures
        (match spec_migrate_config(*old(config), target_version, now, caller) {
            Ok((after, record)) => *final(config) == after && r == Ok::<
                ConfigMigrated,
                HookError,
            >(record),
            Err(e) => *final(config) == *old(config) && r == Err::<ConfigMigrated, HookError>(e),
        }),
        config_well_formed(*old(config)) ==> config_well_formed(*final(config)),
{
    if caller != config.governance_authority {
        return Err(HookError::UnauthorizedGovernance);
    }
    let current_version = config.version;
    if target_version <= current_version {
        return Err(HookError::InvalidMigrationVersion);
    }
    if target_version > SUPPORTED_VERSION_CEILING {
        return Err(HookError::UnsupportedVersion);
    }
    // Version-specific transforms are registered here as new schema
    // versions are added.
    match (current_version, target_version) {
        _ => Err(HookError::UnsupportedMigration),
    }
}

// ---------------------------------------------------------------------------
// Laws of the state machine
// ---------------------------------------------------------------------------

/// A valid proposal by the authority always succeeds, and the cap it carries
/// takes effect exactly one timelock later: executing one second early fails
/// with `TimelockNotExpired`; executing at the execution time succeeds, makes
/// the proposed cap live, and leaves nothing in flight.
pub proof fn lemma_timelock_enforced(
    c: HookConfig,
    new_cap: u64,
    proposal_time: i64,
    caller: Identity,
)
    requires
        caller == c.governance_authority,
        0 < new_cap <= MAX_REASONABLE_CAP,
        proposal_time <= i64::MAX - TIMELOCK_DURATION_SECONDS,
    ensures
        spec_propose_wallet_cap_update(c, new_cap, proposal_time, caller) is Ok,
        ({
            let proposed = spec_propose_wallet_cap_update(c, new_cap, proposal_time, caller)
                ->Ok_0.0;
            let early = (proposal_time + TIMELOCK_DURATION_SECONDS - 1) as i64;
            let on_time = (proposal_time + TIMELOCK_DURATION_SECONDS) as i64;
            &&& (spec_execute_wallet_cap_update(proposed, early, caller) matches Err(e)
                && e == HookError::TimelockNotExpired)
            &&& (spec_execute_wallet_cap_update(proposed, on_time, caller) matches Ok((after, _))
                && after.wallet_cap_raw == new_cap && after.pending_cap_update is None)
        }),
{
}

/// A later proposal supersedes an earlier, unexecuted one: after proposing
/// one cap and then another, exactly the second proposal is in flight, with
/// its own proposal and execution times — the first is discarded, not queued.
pub proof fn lemma_later_proposal_supersedes(
    c: HookConfig,
    first_cap: u64,
    second_cap: u64,
    first_time: i64,
    second_time: i64,
    caller: Identity,
)
    requires
        caller == c.governance_authority,
        0 < first_cap <= MAX_REASONABLE_CAP,
        0 < second_cap <= MAX_REASONABLE_CAP,
        first_time < second_time,
        first_time <= i64::MAX - TIMELOCK_DURATION_SECONDS,
        second_time <= i64::MAX - TIMELOCK_DURATION_SECONDS,
    ensures
        spec_propose_wallet_cap_update(c, first_cap, first_time, caller) is Ok,
        ({
            let once = spec_propose_wallet_cap_update(c, first_cap, first_time, caller)->Ok_0.0;
            &&& spec_propose_wallet_cap_update(once, second_cap, second_time, caller) is Ok
            &&& spec_propose_wallet_cap_update(once, second_cap, second_time, caller)
                ->Ok_0.0.pending_cap_update == Some(
                PendingCapUpdate {
                    new_cap: second_cap,
                    proposed_at: second_time,
                    execution_time: (second_time + TIMELOCK_DURATION_SECONDS) as i64,
                },
            )
        }),
{
}

/// A cancelled proposal cannot be executed: after propose and cancel, an
/// execute at any time fails with `NoPendingUpdate`, and the live cap is
/// what it was before the proposal.
pub proof fn lemma_cancel_blocks_execute(
    c: HookConfig,
    new_cap: u64,
    proposal_time: i64,
    cancel_time: i64,
    execute_time: i64,
    caller: Identity,
)
    requires
        caller == c.governance_authority,
        0 < new_cap <= MAX_REASONABLE_CAP,
        proposal_time <= i64::MAX - TIMELOCK_DURATION_SECONDS,
    ensures
        spec_propose_wallet_cap_update(c, new_cap, proposal_time, caller) is Ok,
        ({
            let proposed = spec_propose_wallet_cap_update(c, new_cap, proposal_time, caller)
                ->Ok_0.0;
            &&& spec_cancel_wallet_cap_update(proposed, cancel_time, caller) is Ok
            &&& ({
                let cancelled = spec_cancel_wallet_cap_update(proposed, cancel_time, caller)
                    ->Ok_0.0;
                &&& (spec_execute_wallet_cap_update(cancelled, execute_time, caller) matches Err(e)
                    && e == HookError::NoPendingUpdate)
                &&& cancelled.wallet_cap_raw == c.wallet_cap_raw
            })
        }),
{
}

/// The schema version never decreases: no governance operation lowers it,
/// and only a migration raises it.
pub proof fn lemma_version_never_decreases(
    c: HookConfig,
    new_cap: u64,
    new_governance_authority: Identity,
    target_version: u8,
    now: i64,
    caller: Identity,
)
    ensures
        (spec_propose_wallet_cap_update(c, new_cap, now, caller) matches Ok((after, _))
            ==> after.version == c.version),
        (spec_execute_wallet_cap_update(c, now, caller) matches Ok((after, _))
            ==> after.version == c.version),
        (spec_cancel_wallet_cap_update(c, now, caller) matches Ok((after, _))
            ==> after.version == c.version),
        (spec_update_governance_authority(c, new_governance_authority, now, caller) matches Ok(
            (after, _),
        ) ==> after.version == c.version),
        (spec_migrate_config(c, target_version, now, caller) matches Ok((after, _))
            ==> after.version > c.version),
{
}

/// Every governance operation called by an identity other than the current
/// governance authority fails with `UnauthorizedGovernance`; by the
/// operations' contracts, a failing call leaves the record unchanged.
pub proof fn lemma_unauthorized_governance_rejected(
    c: HookConfig,
    new_cap: u64,
    new_governance_authority: Identity,
    target_version: u8,
    now: i64,
    caller: Identity,
)
    requires
        caller != c.governance_authority,
    ensures
        (spec_propose_wallet_cap_update(c, new_cap, now, caller) matches Err(e)
            && e == HookError::UnauthorizedGovernance),
        (spec_execute_wallet_cap_update(c, now, caller) matches Err(e)
            && e == HookError::UnauthorizedGovernance),
        (spec_cancel_wallet_cap_update(c, now, caller) matches Err(e)
            && e == HookError::UnauthorizedGovernance),
        (spec_update_governance_authority(c, new_governance_authority, now, caller) matches Err(e)
            && e == HookError::UnauthorizedGovernance),
        (spec_migrate_config(c, target_version, now, caller) matches Err(e)
            && e == HookError::UnauthorizedGovernance),
{
}

} // verus!
