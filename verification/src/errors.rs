use vstd::prelude::*;

verus! {

/// Why a transfer or a governance call was rejected. Every failure is
/// surfaced as one of these; no call retries internally or leaves the
/// policy record partially changed.
#[derive(Clone, Copy, PartialEq, Eq, Structural, Debug)]
pub enum HookError {
    /// A non-exempt destination would end above the configured cap.
    WalletCapExceeded,
    /// A governance call came from an identity other than the current
    /// governance authority.
    UnauthorizedGovernance,
    /// A proposed cap is zero or above the hard ceiling.
    InvalidWalletCap,
    /// Execute or cancel was attempted with no proposal in flight.
    NoPendingUpdate,
    /// Execute was attempted before the pending update's execution time.
    TimelockNotExpired,
    /// An account presented for a transfer does not belong to the expected
    /// ledger program.
    InvalidAccountOwner,
    /// A migration target does not increase the schema version.
    InvalidMigrationVersion,
    /// A migration target is above the highest schema version this build
    /// knows about.
    UnsupportedVersion,
    /// No transform is registered for the requested migration step.
    UnsupportedMigration,
}

} // verus!
