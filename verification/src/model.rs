//! Ghost model of the escrow system and the laws it obeys.

use vstd::prelude::*;

verus! {

/// The whole system around one escrow account, seen mathematically: the
/// stake the escrow account records, together with the two ledger balances
/// the record is measured against.
pub ghost struct GameState {
    /// The stake recorded by the escrow account's bookkeeping field.
    pub stake: int,
    /// The player's ledger balance.
    pub player_balance: int,
    /// The escrow account's actual ledger balance.
    pub escrow_balance: int,
}

/// Well-formedness of a system state: every quantity is a balance-type
/// value, the recorded stake never exceeds the escrow account's actual
/// ledger balance, and the total value held by the two parties fits the
/// balance type (a ledger can never hold more value than its balance type
/// counts).
pub open spec fn wf(s: GameState) -> bool {
    &&& 0 <= s.stake
    &&& s.stake <= s.escrow_balance
    &&& 0 <= s.player_balance
    &&& s.player_balance + s.escrow_balance <= u64::MAX
}

/// A successful deposit of `v`: the ledger moves `v` from the player to
/// the escrow account, and in the same step the bookkeeping field grows by
/// the same `v`.
pub open spec fn deposit_transition(pre: GameState, v: int, post: GameState) -> bool {
    &&& 0 <= v <= pre.player_balance
    &&& post == (GameState {
        stake: pre.stake + v,
        player_balance: pre.player_balance - v,
        escrow_balance: pre.escrow_balance + v,
    })
}

/// A winning resolution: the escrow account pays the player exactly twice
/// the recorded stake, and the bookkeeping field is reset to zero in the
/// same atomic step.
pub open spec fn win_transition(pre: GameState, post: GameState) -> bool {
    &&& 2 * pre.stake <= pre.escrow_balance
    &&& post == (GameState {
        stake: 0,
        player_balance: pre.player_balance + 2 * pre.stake,
        escrow_balance: pre.escrow_balance - 2 * pre.stake,
    })
}

/// The sum of a sequence of deposit values.
pub open spec fn sum(vs: Seq<int>) -> int
    decreases vs.len(),
{
    if vs.len() == 0 {
        0
    } else {
        sum(vs.drop_last()) + vs.last()
    }
}

/// `states` is a run of successful deposits with values `vs`:
/// `states[0]` is the starting state, and the deposit of `vs[i]` takes
/// `states[i]` to `states[i + 1]`.
pub open spec fn deposit_run(states: Seq<GameState>, vs: Seq<int>) -> bool
    decreases vs.len(),
{
    &&& states.len() == vs.len() + 1
    &&& (vs.len() > 0 ==> deposit_run(states.drop_last(), vs.drop_last())
        && deposit_transition(states[vs.len() - 1], vs.last(), states.last()))
}

/// Law: deposit additivity. Over any run of successful deposits, the
/// recorded stake and the escrow account's ledger balance each grow by
/// exactly the sum of the deposited values, and the player's ledger
/// balance falls by that same sum.
pub proof fn lemma_deposit_additivity(states: Seq<GameState>, vs: Seq<int>)
    requires
        deposit_run(states, vs),
    ensures
        states.last().stake == states.first().stake + sum(vs),
        states.last().escrow_balance == states.first().escrow_balance + sum(vs),
        states.last().player_balance == states.first().player_balance - sum(vs),
    decreases vs.len(),
{
    if vs.len() > 0 {
        lemma_deposit_additivity(states.drop_last(), vs.drop_last());
    }
}

} // verus!
