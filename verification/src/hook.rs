use vstd::prelude::*;

use crate::errors::HookError;
use crate::identity::Identity;
use crate::policy::HookConfig;

verus! {

/// The cap check on one transfer: the exempt wallet always passes; any other
/// destination passes exactly when its saturated post-transfer balance stays
/// at or under the configured cap.
pub open spec fn spec_evaluate(
    amount: u64,
    destination_owner: Identity,
    destination_balance: u64,
    config: HookConfig,
) -> Result<(), HookError> {
    if destination_owner == config.dev_wallet {
        Ok(())
    } else if destination_balance.saturating_add(amount) <= config.wallet_cap_raw {
        Ok(())
    } else {
        Err(HookError::WalletCapExceeded)
    }
}

/// Decide whether a transfer of `amount` into an account owned by
/// `destination_owner`, currently holding `destination_balance`, is allowed
/// under `config`. Pure and deterministic: no side effects, so repeated calls
/// on the same inputs reach the same decision. The post-transfer balance is
/// computed with saturating addition and never overflows.
pub fn evaluate(
    amount: u64,
    destination_owner: Identity,
    destination_balance: u64,
    config: &HookConfig,
) -> (decision: Result<(), HookError>)
    ensures
        decision == spec_evaluate(amount, destination_owner, destination_balance, *config),
        destination_owner == config.dev_wallet ==> decision is Ok,
        destination_owner != config.dev_wallet ==> (decision is Ok <==> destination_balance
            .saturating_add(amount) <= config.wallet_cap_raw),
        decision is Err ==> decision == Err::<(), HookError>(HookError::WalletCapExceeded),
{
    if destination_owner == config.dev_wallet {
        return Ok(());
    }
    let post_balance = destination_balance.saturating_add(amount);
    if post_balance <= config.wallet_cap_raw {
        Ok(())
    } else {
        Err(HookError::WalletCapExceeded)
    }
}

/// The full entrypoint decision: every presented account must belong to the
/// expected ledger program, and then the cap check decides.
pub open spec fn spec_on_transfer(
    amount: u64,
    source_program: Identity,
    mint_program: Identity,
    destination_program: Identity,
    ledger_program: Identity,
    destination_owner: Identity,
    destination_balance: u64,
    config: HookConfig,
) -> Result<(), HookError> {
    if source_program != ledger_program || destination_program != ledger_program
        || mint_program != ledger_program {
        Err(HookError::InvalidAccountOwner)
    } else {
        spec_evaluate(amount, destination_owner, destination_balance, config)
    }
}

/// Shared decision procedure behind both entry paths. The `*_program`
/// arguments are the programs that own the source, mint and destination
/// accounts as the ledger reports them; all three must equal
/// `ledger_program`, which guards against spoofed accounts substituted for
/// genuine token state. `destination_owner` and `destination_balance` are the
/// destination's wallet and its pre-transfer balance.
pub fn on_transfer(
    amount: u64,
    source_program: Identity,
    mint_program: Identity,
    destination_program: Identity,
    ledger_program: Identity,
    destination_owner: Identity,
    destination_balance: u64,
    config: &HookConfig,
) -> (decision: Result<(), HookError>)
    ensures
        decision == spec_on_transfer(
            amount,
            source_program,
            mint_program,
            destination_program,
            ledger_program,
            destination_owner,
            destination_balance,
            *config,
        ),
{
    if source_program != ledger_program {
        return Err(HookError::InvalidAccountOwner);
    }
    if destination_program != ledger_program {
        return Err(HookError::InvalidAccountOwner);
    }
    if mint_program != ledger_program {
        return Err(HookError::InvalidAccountOwner);
    }
    evaluate(amount, destination_owner, destination_balance, config)
}

/// Pre-check path: some ledgers simulate the transfer before settling it.
/// Decides exactly as `execute` does for identical inputs.
pub fn transfer_hook(
    amount: u64,
    source_program: Identity,
    mint_program: Identity,
    destination_program: Identity,
    ledger_program: Identity,
    destination_owner: Identity,
    destination_balance: u64,
    config: &HookConfig,
) -> (decision: Result<(), HookError>)
    ensures
        decision == spec_on_transfer(
            amount,
            source_program,
            mint_program,
            destination_program,
            ledger_program,
            destination_owner,
            destination_balance,
            *config,
        ),
{
    on_transfer(
        amount,
        source_program,
        mint_program,
        destination_program,
        ledger_program,
        destination_owner,
        destination_balance,
        config,
    )
}

/// Settlement path required by the transfer-hook interface. One code path
/// with `transfer_hook`, so the two entry points cannot drift apart.
pub fn execute(
    amount: u64,
    source_program: Identity,
    mint_program: Identity,
    destination_program: Identity,
    ledger_program: Identity,
    destination_owner: Identity,
    destination_balance: u64,
    config: &HookConfig,
) -> (decision: Result<(), HookError>)
    ensures
        decision == spec_on_transfer(
            amount,
            source_program,
            mint_program,
            destination_program,
            ledger_program,
            destination_owner,
            destination_balance,
            *config,
        ),
{
    on_transfer(
        amount,
        source_program,
        mint_program,
        destination_program,
        ledger_program,
        destination_owner,
        destination_balance,
        config,
    )
}

} // verus!
