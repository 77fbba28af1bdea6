//! The escrow engine: account lifecycle, deposits, and score resolution.

use vstd::prelude::*;
use crate::ledger::LedgerError;
use crate::ledger::transfer;
use crate::model::GameState;
use crate::model::deposit_transition;
use crate::model::wf;
use crate::model::win_transition;

verus! {

/// The balance-bearing record that holds a player's stake while a round
/// is pending. One record exists per game instance; it is created once
/// and reused across deposit and resolution calls.
#[derive(Clone, Copy, Debug, PartialEq, Eq, Structural)]
pub struct EscrowAccount {
    /// Funds currently held in escrow, in the ledger's smallest unit.
    pub amount: u64,
}

/// The errors the escrow operations surface. Every failure leaves all
/// balances and bookkeeping exactly as they were before the call.
#[derive(Clone, Copy, Debug, PartialEq, Eq, Structural)]
pub enum CustomError {
    /// The escrow account's actual ledger balance cannot cover the payout.
    InsufficientFundsInEscrow,
    /// The player's ledger balance cannot fund the deposit.
    InsufficientPlayerFunds,
    /// Doubling the stake would exceed the balance type's maximum.
    PayoutOverflow,
}

/// The mathematical state of the system around one escrow account.
pub open spec fn state_of(escrow: EscrowAccount, player_balance: u64, escrow_balance: u64) -> GameState {
    GameState {
        stake: escrow.amount as int,
        player_balance: player_balance as int,
        escrow_balance: escrow_balance as int,
    }
}

/// Creates the escrow record for a new game instance with nothing in
/// escrow. Space allocation and rent for the record itself belong to the
/// hosting ledger runtime, not to this core.
pub fn initialize_escrow() -> (escrow: EscrowAccount)
    ensures
        escrow.amount == 0,
{
    EscrowAccount { amount: 0 }
}

/// Deposits `amount` into escrow: the ledger moves `amount` from the
/// player's balance to the escrow account's balance, and the bookkeeping
/// field grows by the same `amount` in the same logical step. If the
/// transfer fails, the bookkeeping is not touched: the whole call is
/// all-or-nothing. A zero deposit succeeds and changes nothing.
pub fn deposit_funds(
    escrow: &mut EscrowAccount,
    player_balance: &mut u64,
    escrow_balance: &mut u64,
    amount: u64,
) -> (r: Result<(), CustomError>)
    requires
        wf(state_of(*old(escrow), *old(player_balance), *old(escrow_balance))),
    ensures
        r is Ok <==> amount <= *old(player_balance),
        r is Ok ==> deposit_transition(
            state_of(*old(escrow), *old(player_balance), *old(escrow_balance)),
            amount as int,
            state_of(*final(escrow), *final(player_balance), *final(escrow_balance)),
        ),
        r is Err ==> r == Err::<(), CustomError>(CustomError::InsufficientPlayerFunds)
            && *final(escrow) == *old(escrow)
            && *final(player_balance) == *old(player_balance)
            && *final(escrow_balance) == *old(escrow_balance),
        wf(state_of(*final(escrow), *final(player_balance), *final(escrow_balance))),
{
    match transfer(player_balance, escrow_balance, amount) {
        Ok(()) => {
            escrow.amount = escrow.amount + amount;
            Ok(())
        },
        Err(LedgerError::InsufficientFunds) => Err(CustomError::InsufficientPlayerFunds),
    }
}

/// Resolves the round by holding `score` against `target_score`, in one
/// deterministic evaluation with no persisted intermediate state.
///
/// On a win (`score >= target_score`) the escrow account pays the player
/// exactly twice the recorded stake and the bookkeeping field is reset to
/// zero in the same atomic step. The payout is first checked against the
/// balance type (a stake whose doubling would not fit fails with
/// `PayoutOverflow`) and then, defensively, against the escrow account's
/// actual ledger balance (an under-collateralized escrow fails with
/// `InsufficientFundsInEscrow`); either failure leaves every balance and
/// the bookkeeping untouched.
///
/// On a loss (`score < target_score`) nothing moves: the stake stays
/// locked in escrow, with no withdrawal path among these operations.
pub fn submit_score(
    escrow: &mut EscrowAccount,
    player_balance: &mut u64,
    escrow_balance: &mut u64,
    score: u64,
    target_score: u64,
) -> (r: Result<(), CustomError>)
    requires
        wf(state_of(*old(escrow), *old(player_balance), *old(escrow_balance))),
    ensures
        score < target_score ==> r is Ok
            && *final(escrow) == *old(escrow)
            && *final(player_balance) == *old(player_balance)
            && *final(escrow_balance) == *old(escrow_balance),
        score >= target_score && 2 * old(escrow).amount > u64::MAX
            ==> r == Err::<(), CustomError>(CustomError::PayoutOverflow)
                && *final(escrow) == *old(escrow)
                && *final(player_balance) == *old(player_balance)
                && *final(escrow_balance) == *old(escrow_balance),
        score >= target_score && 2 * old(escrow).amount <= u64::MAX
            && 2 * old(escrow).amount > *old(escrow_balance)
            ==> r == Err::<(), CustomError>(CustomError::InsufficientFundsInEscrow)
                && *final(escrow) == *old(escrow)
                && *final(player_balance) == *old(player_balance)
                && *final(escrow_balance) == *old(escrow_balance),
        score >= target_score && 2 * old(escrow).amount <= u64::MAX
            && 2 * old(escrow).amount <= *old(escrow_balance)
            ==> r is Ok && win_transition(
                state_of(*old(escrow), *old(player_balance), *old(escrow_balance)),
                state_of(*final(escrow), *final(player_balance), *final(escrow_balance)),
            ),
        wf(state_of(*final(escrow), *final(player_balance), *final(escrow_balance))),
{
    if score >= target_score {
        if escrow.amount > u64::MAX / 2 {
            return Err(CustomError::PayoutOverflow);
        }
        let payout: u64 = escrow.amount * 2;
        if *escrow_balance < payout {
            return Err(CustomError::InsufficientFundsInEscrow);
        }
        match transfer(escrow_balance, player_balance, payout) {
            Ok(()) => {
                escrow.amount = 0;
                Ok(())
            },
            Err(LedgerError::InsufficientFunds) => Err(CustomError::InsufficientFundsInEscrow),
        }
    } else {
        Ok(())
    }
}

} // verus!
