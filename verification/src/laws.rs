//! Game-theoretic laws of the engine, proved once and for all states.

use vstd::prelude::*;

use vstd::arithmetic::div_mod::lemma_fundamental_div_mod;
use vstd::arithmetic::div_mod::lemma_mod_decreases;
use vstd::arithmetic::div_mod::lemma_mod_division_less_than_divisor;
use vstd::arithmetic::div_mod::lemma_mod_multiples_basic;
use vstd::arithmetic::div_mod::lemma_small_mod;
use vstd::arithmetic::mul::lemma_mul_is_commutative;

use crate::engine::ai_amount;
use crate::engine::program_amount;
use crate::engine::state_after_program_turn;
use crate::game::GameState;
use crate::game::state_wf;

verus! {

/// On Hard difficulty, whenever the pile is not a multiple of
/// `max_pebbles_per_turn + 1` before the Program moves, the Program's move
/// leaves a pile that is such a multiple: the losing-position residue class
/// of this subtract-a-game, whichever value the random draw takes.
pub proof fn lemma_hard_play_reaches_losing_position(s: GameState, rand: u32)
    requires
        state_wf(s),
        s.winner is None,
        s.difficulty is Hard,
        (s.pebbles_remaining as int) % (s.max_pebbles_per_turn as int + 1) != 0,
    ensures
        (state_after_program_turn(s, rand).pebbles_remaining as int) % (s.max_pebbles_per_turn as int + 1)
            == 0,
{
    let m1 = s.max_pebbles_per_turn as int + 1;
    let r = s.pebbles_remaining as int;
    let optimal = r % m1;
    lemma_mod_division_less_than_divisor(r, m1);
    assert(0 < optimal < m1);
    assert(ai_amount(s, rand) == optimal);
    lemma_mod_decreases(r as nat, m1 as nat);
    assert(optimal <= r);
    assert(program_amount(s, rand) == optimal);
    let left = state_after_program_turn(s, rand).pebbles_remaining;
    if optimal == r {
        assert(left == 0);
        lemma_small_mod(0, m1 as nat);
    } else {
        assert(left == r - optimal);
        lemma_fundamental_div_mod(r, m1);
        assert(r - optimal == m1 * (r / m1));
        lemma_mul_is_commutative(m1, r / m1);
        lemma_mod_multiples_basic(r / m1, m1);
        assert((r - optimal) % m1 == 0);
    }
}

} // verus!
