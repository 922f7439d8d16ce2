//! The schedule of a draft, as functions of the turn counter.
//!
//! Turns are numbered from 0. A round is one pass through all seats, so turn
//! `t` among `n` seats lies in round `t / n`. The stored counter of a session
//! is the number of turns already taken, which is also the number of the turn
//! that comes next; the functions here take the counter as it stands before a
//! turn is applied and answer for the turn after it.

use vstd::prelude::*;
use vstd::arithmetic::div_mod::{
    lemma_basic_div, lemma_div_by_self, lemma_div_is_ordered, lemma_fundamental_div_mod,
    lemma_fundamental_div_mod_converse, lemma_mod_pos_bound,
};
use crate::rules::{DraftPhase, DraftRules, DraftRulesView, TurnType};

verus! {

/// The seat that takes turn number `turn` among `players` seats: front to back
/// in every round of a round-robin draft and in the even rounds of a snake
/// draft, back to front in the odd rounds of a snake draft.
pub open spec fn slot_of_turn(turn: nat, players: nat, turn_type: TurnType) -> nat
    recommends
        players > 0,
{
    let x = turn % players;
    let round = turn / players;
    if turn_type == TurnType::RoundRobin || round % 2 == 0 {
        x
    } else {
        (players - (x + 1)) as nat
    }
}

/// The action asked of every seat in round number `round`. A cycle has
/// `picks_per_round + bans_per_round` rounds; the opening action is asked
/// while the round's place in its cycle, plus the opening action's own count,
/// stays below the length of the cycle, and the other action after that. A
/// cycle thus asks for picks in `bans_per_round` of its rounds and for bans in
/// `picks_per_round` of them, whichever action opens it.
pub open spec fn phase_of_round(round: nat, rules: DraftRulesView) -> DraftPhase
    recommends
        rules.wf(),
{
    let full_cycle = rules.picks_per_round + rules.bans_per_round;
    let normalized_round = round % full_cycle;
    match rules.starting_phase {
        DraftPhase::Ban => if normalized_round + rules.bans_per_round < full_cycle {
            DraftPhase::Ban
        } else {
            DraftPhase::Pick
        },
        DraftPhase::Pick => if normalized_round + rules.picks_per_round < full_cycle {
            DraftPhase::Pick
        } else {
            DraftPhase::Ban
        },
    }
}

/// The action asked at turn number `turn` among `players` seats.
pub open spec fn phase_of_turn(turn: nat, players: nat, rules: DraftRulesView) -> DraftPhase
    recommends
        players > 0,
        rules.wf(),
{
    phase_of_round(turn / players, rules)
}

/// The action that turn number `turn` asks for in a session: the opening
/// action at the first turn, and what the round asks for at every later one.
pub open spec fn action_of_turn(turn: nat, players: nat, rules: DraftRulesView) -> DraftPhase {
    if turn == 0 {
        rules.starting_phase
    } else {
        phase_of_turn(turn, players, rules)
    }
}

/// The picks counted inside a cycle of which `rest` turns are done.
///
/// In a draft that opens with picks: all the picks of a cycle, once more
/// turns are done than the picks of a cycle take; until then, the whole number
/// of times that those turns go into the turns done, which is 1 when they are
/// just done and 0 before. In a draft that opens with bans: nothing while the
/// turns done do not exceed those that the bans of a cycle take; after that,
/// the whole number of times that the picks' turns go into the turns done
/// beyond the bans. With no pick in the cycle there is nothing to count.
pub open spec fn picks_in_partial_cycle(rest: nat, players: nat, rules: DraftRulesView) -> nat {
    let pick_turns = rules.picks_per_round * players;
    let ban_turns = rules.bans_per_round * players;
    if pick_turns == 0 {
        0
    } else {
        match rules.starting_phase {
            DraftPhase::Pick => if rest > pick_turns {
                rules.picks_per_round
            } else {
                rest / pick_turns
            },
            DraftPhase::Ban => if rest <= ban_turns {
                0
            } else {
                ((rest - ban_turns) / (pick_turns as int)) as nat
            },
        }
    }
}

/// The number of picks that the completion test credits to every seat once
/// `turns` turns are done: those of the finished cycles, and those counted in
/// the cycle under way.
pub open spec fn pick_floor(turns: nat, players: nat, rules: DraftRulesView) -> nat
    recommends
        players > 0,
        rules.wf(),
{
    let turns_per_cycle = players * (rules.picks_per_round + rules.bans_per_round);
    let cycles = turns / turns_per_cycle;
    let rest = turns % turns_per_cycle;
    picks_in_partial_cycle(rest, players, rules) + cycles * rules.picks_per_round
}

/// Whether every roster counts as full once `turns` turns are done.
pub open spec fn draft_complete(turns: nat, players: nat, rules: DraftRulesView) -> bool
    recommends
        players > 0,
        rules.wf(),
{
    pick_floor(turns, players, rules) >= rules.max_pokemon
}

/// Advances the turn counter and names the seat that acts next.
pub fn next_turn(ticker: u32, num_players: u32, rules: &DraftRules) -> (r: (u32, u32))
    requires
        num_players > 0,
        ticker < u32::MAX,
    ensures
        r.0 == ticker + 1,
        r.1 == slot_of_turn((ticker + 1) as nat, num_players as nat, rules.turn_type),
        r.1 < num_players,
{
    let new_ticker: u32 = ticker + 1;
    let x: u32 = new_ticker % num_players;
    let round: u32 = new_ticker / num_players;
    if round % 2 == 0 || rules.turn_type == TurnType::RoundRobin {
        (new_ticker, x)
    } else {
        (new_ticker, num_players - (x + 1))
    }
}

/// The action asked at the turn after the one that `ticker` counts.
pub fn next_phase(ticker: u32, rules: &DraftRules, num_players: u32) -> (r: DraftPhase)
    requires
        num_players > 0,
        rules.wf(),
        ticker < u32::MAX,
    ensures
        r == phase_of_turn((ticker + 1) as nat, num_players as nat, rules@),
{
    let picks_per_round: u32 = rules.picks_per_round as u32;
    let bans_per_round: u32 = rules.bans_per_round as u32;
    let round: u32 = (ticker + 1) / num_players;
    let full_cycle: u32 = bans_per_round + picks_per_round;
    let normalized_round: u32 = round % full_cycle;
    match rules.starting_phase {
        DraftPhase::Ban => {
            if normalized_round + bans_per_round < full_cycle {
                DraftPhase::Ban
            } else {
                DraftPhase::Pick
            }
        },
        DraftPhase::Pick => {
            if normalized_round + picks_per_round < full_cycle {
                DraftPhase::Pick
            } else {
                DraftPhase::Ban
            }
        },
    }
}

/// Inside a cycle the count never exceeds the picks of a whole cycle, nor the
/// turns done in it.
pub proof fn lemma_partial_cycle_bounds(rest: nat, players: nat, rules: DraftRulesView)
    requires
        players > 0,
        rest < players * (rules.picks_per_round + rules.bans_per_round),
    ensures
        picks_in_partial_cycle(rest, players, rules) <= rules.picks_per_round,
        picks_in_partial_cycle(rest, players, rules) <= rest,
        rules.starting_phase == DraftPhase::Ban ==> picks_in_partial_cycle(rest, players, rules)
            == 0,
{
    let p = rules.picks_per_round as int;
    let b = rules.bans_per_round as int;
    let n = players as int;
    let pick_turns = p * n;
    let ban_turns = b * n;
    assert(n * (p + b) == p * n + b * n) by (nonlinear_arith);
    if pick_turns > 0 {
        assert(p >= 1) by (nonlinear_arith)
            requires
                p * n > 0,
                p >= 0,
                n > 0,
        ;
        assert(p <= p * n) by (nonlinear_arith)
            requires
                p >= 1,
                n >= 1,
        ;
        match rules.starting_phase {
            DraftPhase::Pick => {
                if rest <= pick_turns {
                    lemma_div_is_ordered(rest as int, pick_turns, pick_turns);
                    lemma_div_by_self(pick_turns);
                    lemma_fundamental_div_mod(rest as int, pick_turns);
                    lemma_mod_pos_bound(rest as int, pick_turns);
                    assert(pick_turns * (rest as int / pick_turns) >= rest as int / pick_turns)
                        by (nonlinear_arith)
                        requires
                            pick_turns >= 1,
                            rest as int / pick_turns >= 0,
                    ;
                }
            },
            DraftPhase::Ban => {
                if rest > ban_turns {
                    lemma_basic_div(rest - ban_turns, pick_turns);
                }
            },
        }
    }
}

/// The count never exceeds the number of turns done.
pub proof fn lemma_pick_floor_at_most_turns(turns: nat, players: nat, rules: DraftRulesView)
    requires
        players > 0,
        rules.wf(),
    ensures
        pick_floor(turns, players, rules) <= turns,
{
    let p = rules.picks_per_round as int;
    let n = players as int;
    let t = (players * (rules.picks_per_round + rules.bans_per_round)) as int;
    assert(t >= 1 && t >= p) by (nonlinear_arith)
        requires
            t == n * (p + rules.bans_per_round),
            n >= 1,
            p + rules.bans_per_round >= 1,
            p >= 0,
            rules.bans_per_round >= 0,
    ;
    let cycles = turns as int / t;
    let rest = turns as int % t;
    lemma_fundamental_div_mod(turns as int, t);
    lemma_mod_pos_bound(turns as int, t);
    lemma_partial_cycle_bounds(rest as nat, players, rules);
    assert(cycles >= 0) by {
        lemma_div_is_ordered(0, turns as int, t);
    }
    assert(cycles * p <= t * cycles) by (nonlinear_arith)
        requires
            cycles >= 0,
            0 <= p <= t,
    ;
}

/// Every turn goes to one of the seats.
pub proof fn lemma_slot_in_range(turn: nat, players: nat, turn_type: TurnType)
    requires
        players > 0,
    ensures
        slot_of_turn(turn, players, turn_type) < players,
{
    lemma_mod_pos_bound(turn as int, players as int);
}

/// The seats in the order in which round number `round` calls them: turn
/// `j` of the round is turn `round * players + j` of the draft.
pub open spec fn round_slots(round: nat, players: nat, turn_type: TurnType) -> Seq<nat> {
    Seq::new(players, |j: int| slot_of_turn((round * players + j) as nat, players, turn_type))
}

/// Turn `j` of round `round` is turn number `round * players + j` of the draft.
proof fn lemma_turn_in_round(round: nat, j: nat, players: nat)
    requires
        j < players,
    ensures
        (round * players + j) / players == round,
        (round * players + j) % players == j,
{
    lemma_fundamental_div_mod_converse(
        (round * players + j) as int,
        players as int,
        round as int,
        j as int,
    );
}

/// A round calls the seats front to back, except for the odd rounds of a
/// snake draft, which call them back to front.
pub proof fn lemma_round_order(round: nat, players: nat, turn_type: TurnType)
    requires
        players > 0,
    ensures
        turn_type == TurnType::RoundRobin || round % 2 == 0 ==> round_slots(
            round,
            players,
            turn_type,
        ) == Seq::new(players, |j: int| j as nat),
        turn_type == TurnType::Snake && round % 2 == 1 ==> round_slots(round, players, turn_type)
            == Seq::new(players, |j: int| (players - 1 - j) as nat),
{
    let slots = round_slots(round, players, turn_type);
    assert forall|j: int| 0 <= j < players implies #[trigger] slots[j] == if turn_type
        == TurnType::RoundRobin || round % 2 == 0 {
        j as nat
    } else {
        (players - 1 - j) as nat
    } by {
        lemma_turn_in_round(round, j as nat, players);
    }
}

/// Every round calls every seat exactly once: the seats of a round are a
/// permutation of all seats.
pub proof fn lemma_round_is_permutation(round: nat, players: nat, turn_type: TurnType)
    requires
        players > 0,
    ensures
        round_slots(round, players, turn_type).len() == players,
        round_slots(round, players, turn_type).no_duplicates(),
        forall|s: nat| s < players ==> round_slots(round, players, turn_type).contains(s),
        forall|j: int|
            0 <= j < players ==> #[trigger] round_slots(round, players, turn_type)[j] < players,
{
    let slots = round_slots(round, players, turn_type);
    lemma_round_order(round, players, turn_type);
    if turn_type == TurnType::RoundRobin || round % 2 == 0 {
        assert forall|s: nat| s < players implies slots.contains(s) by {
            assert(slots[s as int] == s);
        }
    } else {
        assert forall|s: nat| s < players implies slots.contains(s) by {
            assert(slots[players - 1 - s] == s);
        }
    }
}

/// In a round-robin draft any run of as many turns as there are seats calls
/// no seat twice, wherever the run begins.
pub proof fn lemma_round_robin_window(start: nat, i: nat, j: nat, players: nat)
    requires
        i < j < players,
    ensures
        slot_of_turn(start + i, players, TurnType::RoundRobin) != slot_of_turn(
            start + j,
            players,
            TurnType::RoundRobin,
        ),
{
    let n = players as int;
    let a = (start + i) as int;
    let b = (start + j) as int;
    lemma_fundamental_div_mod(a, n);
    lemma_fundamental_div_mod(b, n);
    if a % n == b % n {
        let d = b / n - a / n;
        assert(j - i == n * d) by (nonlinear_arith)
            requires
                a == n * (a / n) + a % n,
                b == n * (b / n) + b % n,
                a % n == b % n,
                d == b / n - a / n,
                b - a == j - i,
        ;
        assert(false) by (nonlinear_arith)
            requires
                j - i == n * d,
                0 < j - i < n,
        ;
    }
}

/// The action asked after a turn depends on the round of the next turn alone:
/// two counters whose next turns lie in one round ask for the same action.
pub proof fn lemma_phase_constant_within_round(
    ticker_a: nat,
    ticker_b: nat,
    players: nat,
    rules: DraftRulesView,
)
    requires
        players > 0,
        (ticker_a + 1) / players == (ticker_b + 1) / players,
    ensures
        phase_of_turn(ticker_a + 1, players, rules) == phase_of_turn(ticker_b + 1, players, rules),
{
}

/// The count of credited picks never goes down as turns are taken.
pub proof fn lemma_pick_floor_monotone(
    turns_a: nat,
    turns_b: nat,
    players: nat,
    rules: DraftRulesView,
)
    requires
        players > 0,
        rules.wf(),
        turns_a <= turns_b,
    ensures
        pick_floor(turns_a, players, rules) <= pick_floor(turns_b, players, rules),
{
    let p = rules.picks_per_round as int;
    let b = rules.bans_per_round as int;
    let n = players as int;
    let t = (players * (rules.picks_per_round + rules.bans_per_round)) as int;
    assert(t >= 1) by (nonlinear_arith)
        requires
            t == n * (p + b),
            n >= 1,
            p + b >= 1,
    ;
    let ca = turns_a as int / t;
    let cb = turns_b as int / t;
    let ra = turns_a as int % t;
    let rb = turns_b as int % t;
    lemma_fundamental_div_mod(turns_a as int, t);
    lemma_fundamental_div_mod(turns_b as int, t);
    lemma_mod_pos_bound(turns_a as int, t);
    lemma_mod_pos_bound(turns_b as int, t);
    lemma_div_is_ordered(turns_a as int, turns_b as int, t);
    lemma_div_is_ordered(0, turns_a as int, t);
    lemma_partial_cycle_bounds(ra as nat, players, rules);
    lemma_partial_cycle_bounds(rb as nat, players, rules);
    if ca == cb {
        lemma_partial_cycle_monotone(ra as nat, rb as nat, players, rules);
    } else {
        assert((ca + 1) * p <= cb * p) by (nonlinear_arith)
            requires
                ca + 1 <= cb,
                p >= 0,
        ;
        assert((ca + 1) * p == ca * p + p) by (nonlinear_arith);
    }
}

/// Inside a cycle the count never goes down.
proof fn lemma_partial_cycle_monotone(
    rest_a: nat,
    rest_b: nat,
    players: nat,
    rules: DraftRulesView,
)
    requires
        players > 0,
        rest_a <= rest_b < players * (rules.picks_per_round + rules.bans_per_round),
    ensures
        picks_in_partial_cycle(rest_a, players, rules) <= picks_in_partial_cycle(
            rest_b,
            players,
            rules,
        ),
{
    let pick_turns = (rules.picks_per_round * players) as int;
    lemma_partial_cycle_bounds(rest_a, players, rules);
    lemma_partial_cycle_bounds(rest_b, players, rules);
    if pick_turns > 0 && rules.starting_phase == DraftPhase::Pick && rest_b <= pick_turns {
        lemma_div_is_ordered(rest_a as int, rest_b as int, pick_turns);
    }
}

/// The number of picks credited to every seat after the turn that `ticker`
/// counts.
pub fn guaranteed_minimum_picks(ticker: u32, rules: &DraftRules, num_players: u32) -> (r: u32)
    requires
        num_players > 0,
        rules.wf(),
        ticker < u32::MAX,
    ensures
        r == pick_floor((ticker + 1) as nat, num_players as nat, rules@),
{
    let picks_per_round: u64 = rules.picks_per_round as u64;
    let bans_per_round: u64 = rules.bans_per_round as u64;
    let players: u64 = num_players as u64;
    let turns: u64 = ticker as u64 + 1;
    assert(players * (picks_per_round + bans_per_round) <= 0xffff_ffff * 0x1_fffe
        && players * (picks_per_round + bans_per_round) >= 1
        && picks_per_round * players <= 0xffff_ffff * 0xffff
        && bans_per_round * players <= 0xffff_ffff * 0xffff) by (nonlinear_arith)
        requires
            1 <= players <= 0xffff_ffff,
            picks_per_round <= 0xffff,
            bans_per_round <= 0xffff,
            picks_per_round + bans_per_round >= 1,
    ;
    let turns_per_cycle: u64 = players * (picks_per_round + bans_per_round);
    let cycles: u64 = turns / turns_per_cycle;
    let rest: u64 = turns % turns_per_cycle;
    let pick_turns: u64 = picks_per_round * players;
    let ban_turns: u64 = bans_per_round * players;
    let partial: u64 = if pick_turns == 0 {
        0
    } else {
        match rules.starting_phase {
            DraftPhase::Pick => {
                if rest > pick_turns {
                    picks_per_round
                } else {
                    rest / pick_turns
                }
            },
            DraftPhase::Ban => {
                if rest > ban_turns {
                    (rest - ban_turns) / pick_turns
                } else {
                    0
                }
            },
        }
    };
    proof {
        lemma_pick_floor_at_most_turns(turns as nat, num_players as nat, rules@);
        assert(cycles * picks_per_round == (cycles as nat) * (rules@.picks_per_round))
            by (nonlinear_arith)
            requires
                picks_per_round == rules@.picks_per_round,
        ;
    }
    let floor: u64 = partial + cycles * picks_per_round;
    floor as u32
}

} // verus!
