//! A minimal escrow variant that tracks only an amount and an active flag.
//!
//! Creation records the amount and activates the escrow; release requires
//! an active escrow and deactivates it, so funds can be released at most
//! once.  The accounts a call names are modeled as plain structs holding
//! the escrow state and the identities involved.

use vstd::prelude::*;

use crate::error::EscrowError;
use crate::state::Pubkey;

verus! {

/// The persisted state of a minimal escrow.
#[derive(Clone, Copy, Debug)]
pub struct EscrowAccount {
    /// The quantity held in escrow.
    pub amount: u64,
    /// True from creation until release.
    pub is_active: bool,
}

/// The accounts a creation call names: the escrow to initialize and the
/// payer that signed the call.
#[derive(Clone, Copy, Debug)]
pub struct CreateEscrow {
    pub escrow: EscrowAccount,
    pub payer: Pubkey,
}

/// The accounts a release call names: the escrow to release.
#[derive(Clone, Copy, Debug)]
pub struct ReleaseEscrow {
    pub escrow: EscrowAccount,
}

/// Initializes the escrow: records the amount and activates it.
pub fn create_escrow(ctx: &mut CreateEscrow, amount: u64) -> (r: Result<(), EscrowError>)
    ensures
        r is Ok,
        final(ctx).escrow.amount == amount,
        final(ctx).escrow.is_active,
        final(ctx).payer == old(ctx).payer,
{
    ctx.escrow.amount = amount;
    ctx.escrow.is_active = true;
    Ok(())
}

/// Releases the escrowed funds: succeeds exactly when the escrow is still
/// active, and marks it inactive so that a second release fails.  The held
/// amount is kept for the record either way.
pub fn release_escrow(ctx: &mut ReleaseEscrow) -> (r: Result<(), EscrowError>)
    ensures
        r is Ok <==> old(ctx).escrow.is_active,
        old(ctx).escrow.is_active ==> !final(ctx).escrow.is_active,
        r is Err ==> *final(ctx) == *old(ctx) && r->Err_0 == EscrowError::NotInitialized,
        final(ctx).escrow.amount == old(ctx).escrow.amount,
{
    if !ctx.escrow.is_active {
        return Err(EscrowError::NotInitialized);
    }
    ctx.escrow.is_active = false;
    Ok(())
}

} // verus!
