//! A lamports escrow: a maker locks lamports in a vault; a taker pays the
//! maker the same amount and receives the locked lamports, or the maker takes
//! them back.
use vstd::prelude::*;
use crate::key::Key;

verus! {

/// The escrow's state account, one per maker.
#[derive(Clone, Copy, Debug, PartialEq, Eq, Structural)]
pub struct EscrowState {
    pub maker: Key,
    /// Lamports locked in the vault.
    pub amount: u64,
    pub vault_bump: u8,
    pub escrow_bump: u8,
}

impl EscrowState {
    /// Bytes of the account, its discriminator included.
    pub const INIT_SPACE: usize = 8 + 32 + 8 + 1 + 1;
}

/// Why an escrow instruction was refused.
#[derive(Clone, Copy, Debug, PartialEq, Eq, Structural)]
pub enum EscrowError {
    /// The escrow state does not belong to the maker given (the `has_one`
    /// constraint on `maker`).
    ConstraintHasOne,
}

/// The bumps found for the escrow's accounts.
#[derive(Clone, Copy, Debug, PartialEq, Eq, Structural)]
pub struct MakeBumps {
    pub escrow_state: u8,
    pub vault: u8,
}

/// What `make` reads: the maker who signs.
#[derive(Clone, Copy, Debug, PartialEq, Eq, Structural)]
pub struct Make {
    pub maker: Key,
}

/// The state that `maker` writes when locking `amount` lamports.
pub open spec fn made_state(maker: Key, amount: u64, bumps: MakeBumps) -> EscrowState {
    EscrowState { maker, amount, vault_bump: bumps.vault, escrow_bump: bumps.escrow_state }
}

impl Make {
    /// Locks `amount` lamports: the state written (`made_state`); the
    /// `amount` lamports go from the maker into the vault.
    pub fn make(&self, amount: u64, bumps: &MakeBumps) -> (r: EscrowState)
        ensures
            r == made_state(self.maker, amount, *bumps),
    {
        EscrowState { maker: self.maker, amount, vault_bump: bumps.vault, escrow_bump: bumps.escrow_state }
    }
}

/// What a take moves: `to_maker` lamports from the taker to the maker, then
/// `to_taker` lamports from the vault to the taker. The state account is
/// closed to the maker.
#[derive(Clone, Copy, Debug, PartialEq, Eq, Structural)]
pub struct TakePlan {
    pub to_maker: u64,
    pub to_taker: u64,
}

/// What `take` reads: the maker's account and the escrow state.
#[derive(Clone, Copy, Debug, PartialEq, Eq, Structural)]
pub struct Take {
    pub maker: Key,
    pub escrow_state: EscrowState,
}

/// Taking the escrow `state` of `maker`: refused with `ConstraintHasOne`
/// where the state is not the maker's; else the taker pays the maker the
/// escrowed amount and receives the same amount from the vault.
pub open spec fn take_outcome(state: EscrowState, maker: Key) -> Result<TakePlan, EscrowError> {
    if state.maker != maker {
        Err(EscrowError::ConstraintHasOne)
    } else {
        Ok(TakePlan { to_maker: state.amount, to_taker: state.amount })
    }
}

impl Take {
    /// Takes the escrow (`take_outcome`).
    pub fn take(&self) -> (r: Result<TakePlan, EscrowError>)
        ensures
            r == take_outcome(self.escrow_state, self.maker),
    {
        if self.escrow_state.maker != self.maker {
            return Err(EscrowError::ConstraintHasOne);
        }
        let amount = self.escrow_state.amount;
        Ok(TakePlan { to_maker: amount, to_taker: amount })
    }
}

/// What `refund` reads: the maker who signs, the escrow state and the
/// lamports the vault holds.
#[derive(Clone, Copy, Debug, PartialEq, Eq, Structural)]
pub struct Refund {
    pub maker: Key,
    pub escrow_state: EscrowState,
    pub vault_lamports: u64,
}

impl Refund {
    /// Refunds the maker: refused with `ConstraintHasOne` where the state is
    /// not the maker's; else every lamport in the vault goes back to the
    /// maker. The state account is closed to the maker.
    pub fn refund(&self) -> (r: Result<u64, EscrowError>)
        ensures
            self.escrow_state.maker != self.maker ==> r == Err::<u64, EscrowError>(EscrowError::ConstraintHasOne),
            self.escrow_state.maker == self.maker ==> r == Ok::<u64, EscrowError>(self.vault_lamports),
    {
        if self.escrow_state.maker != self.maker {
            return Err(EscrowError::ConstraintHasOne);
        }
        Ok(self.vault_lamports)
    }
}

/// Taking an escrow that `make` created releases to the taker exactly the
/// lamports locked, and the taker pays the maker exactly as much; no one but
/// its maker's escrow can be taken with it.
pub proof fn lemma_take_releases_locked(maker: Key, other: Key, amount: u64, bumps: MakeBumps)
    ensures
        take_outcome(made_state(maker, amount, bumps), maker) == Ok::<TakePlan, EscrowError>(
            TakePlan { to_maker: amount, to_taker: amount },
        ),
        other != maker ==> take_outcome(made_state(maker, amount, bumps), other) is Err,
{
}

} // verus!
