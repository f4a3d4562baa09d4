use vstd::prelude::*;

use crate::identity::Identity;

verus! {

/// Default cap applied at initialization: 5 tokens with 9 decimals
/// (0.5% of an expected 1000-token supply).
pub const WALLET_CAP_RAW: u64 = 5_000_000_000;

/// Hard ceiling on any proposed cap: 100 tokens with 9 decimals
/// (10% of the expected total supply), well above normal operation.
pub const MAX_REASONABLE_CAP: u64 = 100_000_000_000;

/// Mandatory delay between proposing a cap change and executing it.
pub const TIMELOCK_DURATION_SECONDS: i64 = 48 * 60 * 60;

/// Highest schema version this build of the library can migrate to.
pub const SUPPORTED_VERSION_CEILING: u8 = 1;

/// The one cap change that may be in flight for a policy record.
#[derive(Clone, Copy, PartialEq, Eq, Structural, Debug)]
pub struct PendingCapUpdate {
    /// Cap that takes effect when the update is executed.
    pub new_cap: u64,
    /// Ledger time at which the update was proposed.
    pub proposed_at: i64,
    /// Earliest ledger time at which the update may be executed.
    pub execution_time: i64,
}

/// Persisted policy state for one governed token.
#[derive(Clone, Copy, PartialEq, Eq, Structural, Debug)]
pub struct HookConfig {
    /// Schema version of this record; starts at 1 and never decreases.
    pub version: u8,
    /// Wallet exempt from the cap (treasury / initial distribution).
    pub dev_wallet: Identity,
    /// Maximum allowed post-transfer balance for non-exempt holders.
    pub wallet_cap_raw: u64,
    /// Sole identity permitted to call governance operations.
    pub governance_authority: Identity,
    /// At most one cap change in flight.
    pub pending_cap_update: Option<PendingCapUpdate>,
}

/// Well-formedness of a policy record: the cap is positive, the schema
/// version has at least its initial value, and any pending update carries a
/// valid cap and an execution time exactly one timelock after its proposal.
pub open spec fn config_well_formed(c: HookConfig) -> bool {
    &&& c.version >= 1
    &&& c.wallet_cap_raw > 0
    &&& match c.pending_cap_update {
        Some(p) => {
            &&& 0 < p.new_cap <= MAX_REASONABLE_CAP
            &&& p.execution_time == p.proposed_at + TIMELOCK_DURATION_SECONDS
        },
        None => true,
    }
}

/// In a well-formed record, whatever is in flight executes strictly after it
/// was proposed: the timelock duration is fixed and positive.
pub proof fn lemma_pending_update_is_delayed(c: HookConfig)
    requires
        config_well_formed(c),
    ensures
        c.pending_cap_update matches Some(p) ==> p.execution_time > p.proposed_at,
{
}

/// One-time setup of a token's policy record: schema version 1, the fixed
/// default cap, the given exempt wallet and governance authority, and no
/// update in flight.
pub fn initialize(dev_wallet: Identity, governance_authority: Identity) -> (config: HookConfig)
    ensures
        config.version == 1,
        config.dev_wallet == dev_wallet,
        config.wallet_cap_raw == WALLET_CAP_RAW,
        config.governance_authority == governance_authority,
        config.pending_cap_update is None,
        config_well_formed(config),
{
    HookConfig {
        version: 1,
        dev_wallet,
        wallet_cap_raw: WALLET_CAP_RAW,
        governance_authority,
        pending_cap_update: None,
    }
}

} // verus!
