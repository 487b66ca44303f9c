//! Move selection for the automated player.
//!
//! Two policies: an easy one, which draws its amount at random whenever the
//! pile is large enough to leave a choice, and a hard one, which plays the
//! closed-form optimal strategy of the subtraction game.

use vstd::prelude::*;

use crate::game::DifficultyLevel;
use vstd::arithmetic::div_mod::lemma_mod_decreases;

verus! {

/// The amount the easy policy removes: a uniform draw over
/// `1..=max_pebbles_per_turn` while more than a full turn's worth remains,
/// and the whole rest of the pile otherwise.
pub open spec fn spec_easy_move(pebbles_remaining: u32, max_pebbles_per_turn: u32, draw: u32) -> int
    recommends
        max_pebbles_per_turn >= 1,
{
    if pebbles_remaining > max_pebbles_per_turn {
        draw as int % max_pebbles_per_turn as int + 1
    } else {
        pebbles_remaining as int
    }
}

/// The amount the hard policy removes: the remainder of the pile modulo
/// `max_pebbles_per_turn + 1`, which leaves the opponent a losing position,
/// or a minimal single pebble when the pile is already a multiple of that
/// modulus and no winning move exists.
pub open spec fn spec_best_move(pebbles_remaining: u32, max_pebbles_per_turn: u32) -> int {
    let modulus = max_pebbles_per_turn as int + 1;
    let remainder = pebbles_remaining as int % modulus;
    if remainder == 0 {
        1
    } else {
        remainder
    }
}

/// The amount the selected policy removes.
pub open spec fn spec_choose_move(
    pebbles_remaining: u32,
    max_pebbles_per_turn: u32,
    difficulty: DifficultyLevel,
    draw: u32,
) -> int {
    match difficulty {
        DifficultyLevel::Easy => spec_easy_move(pebbles_remaining, max_pebbles_per_turn, draw),
        DifficultyLevel::Hard => spec_best_move(pebbles_remaining, max_pebbles_per_turn),
    }
}

/// The chosen amount is always a legal move: at least one pebble, at most
/// the per-turn cap, and at most what remains.
pub proof fn lemma_choose_move_bounds(
    pebbles_remaining: u32,
    max_pebbles_per_turn: u32,
    difficulty: DifficultyLevel,
    draw: u32,
)
    requires
        pebbles_remaining >= 1,
        max_pebbles_per_turn >= 1,
    ensures
        1 <= spec_choose_move(pebbles_remaining, max_pebbles_per_turn, difficulty, draw),
        spec_choose_move(pebbles_remaining, max_pebbles_per_turn, difficulty, draw)
            <= max_pebbles_per_turn,
        spec_choose_move(pebbles_remaining, max_pebbles_per_turn, difficulty, draw)
            <= pebbles_remaining,
{
    if difficulty is Hard {
        lemma_mod_decreases(pebbles_remaining as nat, max_pebbles_per_turn as nat + 1);
    }
}

/// The optimal move of the hard policy.
///
/// Exact result: the remainder of the pile modulo `max_pebbles_per_turn + 1`
/// when that remainder is non-zero, and a single pebble otherwise. The
/// result is always a legal move.
pub fn find_best_move(pebbles_remaining: u32, max_pebbles_per_turn: u32) -> (n: u32)
    requires
        pebbles_remaining >= 1,
        max_pebbles_per_turn >= 1,
    ensures
        n == spec_best_move(pebbles_remaining, max_pebbles_per_turn),
        1 <= n <= max_pebbles_per_turn,
        n <= pebbles_remaining,
        pebbles_remaining as int % (max_pebbles_per_turn as int + 1) != 0 ==> n
            == pebbles_remaining as int % (max_pebbles_per_turn as int + 1),
{
    proof {
        lemma_mod_decreases(pebbles_remaining as nat, max_pebbles_per_turn as nat + 1);
    }
    let modulus: u64 = max_pebbles_per_turn as u64 + 1;
    let remainder: u64 = pebbles_remaining as u64 % modulus;
    if remainder == 0 {
        1
    } else {
        remainder as u32
    }
}

/// One move of the automated player under the selected difficulty.
///
/// The `draw` is a host-supplied random value; only the easy policy reads
/// it, and only while more than one legal move exists. The result equals
/// `spec_choose_move` and is always a legal move.
pub fn choose_move(
    pebbles_remaining: u32,
    max_pebbles_per_turn: u32,
    difficulty: DifficultyLevel,
    draw: u32,
) -> (n: u32)
    requires
        pebbles_remaining >= 1,
        max_pebbles_per_turn >= 1,
    ensures
        n == spec_choose_move(pebbles_remaining, max_pebbles_per_turn, difficulty, draw),
        1 <= n <= max_pebbles_per_turn,
        n <= pebbles_remaining,
{
    match difficulty {
        DifficultyLevel::Easy => {
            if pebbles_remaining > max_pebbles_per_turn {
                draw % max_pebbles_per_turn + 1
            } else {
                pebbles_remaining
            }
        },
        DifficultyLevel::Hard => find_best_move(pebbles_remaining, max_pebbles_per_turn),
    }
}

} // verus!
