//! What the schedule gives each seat, counted turn by turn, and how the
//! completion test relates to it.
//!
//! The completion test credits `picks_per_round` picks for every cycle of the
//! rules. In a draft that follows the schedule a seat picks when its turn
//! falls in a round that asks for picks, and a cycle has `bans_per_round` of
//! those. Under rules with one round of picks and one of bans in a cycle the
//! two counts agree at every turn. Under rules with no more picks than bans
//! in a cycle the test never credits a pick that was not made. Under rules
//! with more picks than bans it may: with one seat, two picks and one ban in
//! the rules, and picks to open, three turns bring one pick and a credit of two.

use vstd::prelude::*;
use vstd::arithmetic::div_mod::{
    lemma_basic_div, lemma_div_by_self, lemma_fundamental_div_mod,
    lemma_fundamental_div_mod_converse, lemma_mod_pos_bound,
};
use crate::rules::{DraftPhase, DraftRulesView, TurnType};
use crate::schedule::{
    action_of_turn, draft_complete, lemma_partial_cycle_bounds, phase_of_round, pick_floor,
    picks_in_partial_cycle, slot_of_turn,
};

verus! {

/// The number of picks that seat `slot` has made when `turns` turns of a
/// draft are done, each turn taken by the seat and with the action that the
/// schedule gives.
pub open spec fn picks_taken(slot: nat, turns: nat, players: nat, rules: DraftRulesView) -> nat
    decreases turns,
{
    if turns == 0 {
        0
    } else {
        let turn = (turns - 1) as nat;
        let earlier = picks_taken(slot, turn, players, rules);
        if slot_of_turn(turn, players, rules.turn_type) == slot && action_of_turn(
            turn,
            players,
            rules,
        ) == DraftPhase::Pick {
            earlier + 1
        } else {
            earlier
        }
    }
}

/// The number of rounds that ask for picks among the first `rounds` rounds.
pub open spec fn pick_rounds(rounds: nat, rules: DraftRulesView) -> nat
    decreases rounds,
{
    if rounds == 0 {
        0
    } else {
        let round = (rounds - 1) as nat;
        if phase_of_round(round, rules) == DraftPhase::Pick {
            pick_rounds(round, rules) + 1
        } else {
            pick_rounds(round, rules)
        }
    }
}

/// Whether seat `slot` has had its turn when `done` turns of round `round`
/// are done.
pub open spec fn has_acted(
    slot: nat,
    round: nat,
    done: nat,
    players: nat,
    turn_type: TurnType,
) -> bool {
    if turn_type == TurnType::RoundRobin || round % 2 == 0 {
        slot < done
    } else {
        slot + done >= players
    }
}

/// Where the first round asks for the opening action, a seat has picked once
/// in every finished round of picks, and once more if the round under way
/// asks for picks and the seat has had its turn in it.
pub proof fn lemma_picks_taken_by_rounds(
    slot: nat,
    turns: nat,
    players: nat,
    rules: DraftRulesView,
)
    requires
        slot < players,
        phase_of_round(0, rules) == rules.starting_phase,
    ensures
        picks_taken(slot, turns, players, rules) == pick_rounds(turns / players, rules) + (
        if phase_of_round(turns / players, rules) == DraftPhase::Pick && has_acted(
            slot,
            turns / players,
            turns % players,
            players,
            rules.turn_type,
        ) {
            1nat
        } else {
            0nat
        }),
    decreases turns,
{
    let n = players as int;
    if turns == 0 {
        lemma_fundamental_div_mod_converse(0, n, 0, 0);
    } else {
        let turn = (turns - 1) as nat;
        let round = turn / players;
        let done = turn % players;
        lemma_picks_taken_by_rounds(slot, turn, players, rules);
        lemma_fundamental_div_mod(turn as int, n);
        lemma_mod_pos_bound(turn as int, n);
        assert(n * (round as int) == (round as int) * n) by (nonlinear_arith);
        if done + 1 < players {
            lemma_fundamental_div_mod_converse(turns as int, n, round as int, (done + 1) as int);
        } else {
            assert((round + 1) * n + 0 == (round as int) * n + n) by (nonlinear_arith);
            lemma_fundamental_div_mod_converse(turns as int, n, (round + 1) as int, 0);
        }
    }
}

/// The number of rounds that ask for picks among the first `done` rounds of
/// a cycle. A cycle that opens with picks asks for them in its first
/// `bans_per_round` rounds; one that opens with bans asks for them in all
/// rounds after its first `picks_per_round`.
pub open spec fn pick_rounds_in_cycle(done: nat, rules: DraftRulesView) -> nat {
    match rules.starting_phase {
        DraftPhase::Pick => if done < rules.bans_per_round {
            done
        } else {
            rules.bans_per_round
        },
        DraftPhase::Ban => if done > rules.picks_per_round {
            (done - rules.picks_per_round) as nat
        } else {
            0
        },
    }
}

/// Every cycle has `bans_per_round` rounds that ask for picks, and they
/// stand in it where `pick_rounds_in_cycle` says.
pub proof fn lemma_pick_rounds_by_cycles(rounds: nat, rules: DraftRulesView)
    requires
        rules.wf(),
    ensures
        pick_rounds(rounds, rules) == (rounds / (rules.picks_per_round + rules.bans_per_round))
            * rules.bans_per_round + pick_rounds_in_cycle(
            rounds % (rules.picks_per_round + rules.bans_per_round),
            rules,
        ),
    decreases rounds,
{
    let length = (rules.picks_per_round + rules.bans_per_round) as int;
    let b = rules.bans_per_round as int;
    if rounds == 0 {
        lemma_fundamental_div_mod_converse(0, length, 0, 0);
        assert(0 * b == 0) by (nonlinear_arith);
    } else {
        let round = (rounds - 1) as nat;
        let cycle = round as int / length;
        let place = round as int % length;
        lemma_pick_rounds_by_cycles(round, rules);
        lemma_fundamental_div_mod(round as int, length);
        lemma_mod_pos_bound(round as int, length);
        assert(length * cycle == cycle * length) by (nonlinear_arith);
        if place + 1 < length {
            lemma_fundamental_div_mod_converse(rounds as int, length, cycle, place + 1);
        } else {
            assert((cycle + 1) * length + 0 == cycle * length + length) by (nonlinear_arith);
            assert((cycle + 1) * b == cycle * b + b) by (nonlinear_arith);
            lemma_fundamental_div_mod_converse(rounds as int, length, cycle + 1, 0);
        }
    }
}

/// Where the first round asks for the opening action, the seat with the
/// fewest picks has picked once in every finished round of picks: no seat has
/// picked less, and the seat that a round calls last has picked exactly that
/// often.
pub proof fn lemma_fewest_picks(turns: nat, players: nat, rules: DraftRulesView)
    requires
        players > 0,
        phase_of_round(0, rules) == rules.starting_phase,
    ensures
        forall|slot: nat|
            slot < players ==> #[trigger] picks_taken(slot, turns, players, rules) >= pick_rounds(
                turns / players,
                rules,
            ),
        exists|slot: nat|
            slot < players && #[trigger] picks_taken(slot, turns, players, rules) == pick_rounds(
                turns / players,
                rules,
            ),
{
    lemma_mod_pos_bound(turns as int, players as int);
    assert forall|slot: nat| slot < players implies #[trigger] picks_taken(
        slot,
        turns,
        players,
        rules,
    ) >= pick_rounds(turns / players, rules) by {
        lemma_picks_taken_by_rounds(slot, turns, players, rules);
    }
    let last: nat = if rules.turn_type == TurnType::RoundRobin || (turns / players) % 2 == 0 {
        (players - 1) as nat
    } else {
        0
    };
    lemma_picks_taken_by_rounds(last, turns, players, rules);
}

/// Under rules with no more rounds of picks than of bans in a cycle, the
/// completion test credits no more picks than there were finished rounds of
/// picks.
pub proof fn lemma_pick_floor_at_most_pick_rounds(turns: nat, players: nat, rules: DraftRulesView)
    requires
        players > 0,
        rules.wf(),
        rules.picks_per_round <= rules.bans_per_round,
    ensures
        pick_floor(turns, players, rules) <= pick_rounds(turns / players, rules),
{
    let n = players as int;
    let p = rules.picks_per_round as int;
    let b = rules.bans_per_round as int;
    let length = p + b;
    let cycle = (players * (rules.picks_per_round + rules.bans_per_round)) as int;
    assert(cycle == n * length && cycle >= 1 && cycle == p * n + b * n) by (nonlinear_arith)
        requires
            cycle == n * (p + b),
            length == p + b,
            n >= 1,
            length >= 1,
    ;
    let cycles = turns as int / cycle;
    let rest = turns as int % cycle;
    lemma_fundamental_div_mod(turns as int, cycle);
    lemma_mod_pos_bound(turns as int, cycle);
    let q = rest / n;
    let r = rest % n;
    lemma_fundamental_div_mod(rest, n);
    lemma_mod_pos_bound(rest, n);
    assert(0 <= q < length) by (nonlinear_arith)
        requires
            rest == n * q + r,
            0 <= r < n,
            0 <= rest < n * length,
    ;
    assert(cycles >= 0) by (nonlinear_arith)
        requires
            turns as int == cycle * cycles + rest,
            rest < cycle,
            cycle > 0,
            turns >= 0,
    ;
    assert(turns as int == (length * cycles + q) * n + r) by (nonlinear_arith)
        requires
            turns as int == cycle * cycles + rest,
            cycle == n * length,
            rest == n * q + r,
    ;
    lemma_fundamental_div_mod_converse(turns as int, n, length * cycles + q, r);
    assert(length * cycles + q == cycles * length + q) by (nonlinear_arith);
    lemma_fundamental_div_mod_converse(length * cycles + q, length, cycles, q);
    lemma_pick_rounds_by_cycles(turns / players, rules);
    lemma_partial_cycle_bounds(rest as nat, players, rules);
    assert(cycles * p <= cycles * b) by (nonlinear_arith)
        requires
            cycles >= 0,
            p <= b,
    ;
    let partial = picks_in_partial_cycle(rest as nat, players, rules) as int;
    assert(partial <= pick_rounds_in_cycle(q as nat, rules)) by {
        if p * n > 0 && rules.starting_phase == DraftPhase::Pick {
            assert(p >= 1) by (nonlinear_arith)
                requires
                    p * n > 0,
                    p >= 0,
                    n > 0,
            ;
            if rest > p * n {
                assert(q >= p) by (nonlinear_arith)
                    requires
                        rest == n * q + r,
                        0 <= r < n,
                        rest > p * n,
                ;
            } else if rest == p * n {
                assert(q >= p) by (nonlinear_arith)
                    requires
                        rest == n * q + r,
                        0 <= r < n,
                        rest == p * n,
                ;
                lemma_div_by_self(p * n);
            } else {
                lemma_basic_div(rest, p * n);
            }
        }
    }
}

/// Under rules with no more rounds of picks than of bans in a cycle, the
/// completion test credits a seat with no pick that it has not made.
pub proof fn lemma_pick_floor_is_lower_bound(
    slot: nat,
    turns: nat,
    players: nat,
    rules: DraftRulesView,
)
    requires
        players > 0,
        slot < players,
        rules.wf(),
        rules.picks_per_round <= rules.bans_per_round,
    ensures
        pick_floor(turns, players, rules) <= picks_taken(slot, turns, players, rules),
{
    if rules.picks_per_round == 0 {
        let cycle = (players * (rules.picks_per_round + rules.bans_per_round)) as int;
        assert(0 * players == 0) by (nonlinear_arith);
        assert((turns as int / cycle) * 0 == 0) by (nonlinear_arith);
    } else {
        lemma_pick_floor_at_most_pick_rounds(turns, players, rules);
        lemma_fundamental_div_mod_converse(
            0,
            (rules.picks_per_round + rules.bans_per_round) as int,
            0,
            0,
        );
        lemma_picks_taken_by_rounds(slot, turns, players, rules);
    }
}

/// Under rules with one round of picks and one round of bans in a cycle,
/// every other round asks for picks, beginning with the first or the second as
/// the opening action says.
proof fn lemma_pick_rounds_alternating(rounds: nat, rules: DraftRulesView)
    requires
        rules.picks_per_round == 1,
        rules.bans_per_round == 1,
    ensures
        pick_rounds(rounds, rules) == if rules.starting_phase == DraftPhase::Ban {
            rounds / 2
        } else {
            (rounds + 1) / 2
        },
    decreases rounds,
{
    if rounds > 0 {
        let round = (rounds - 1) as nat;
        lemma_pick_rounds_alternating(round, rules);
        assert(phase_of_round(round, rules) == DraftPhase::Pick <==> (round % 2 == 0) == (
        rules.starting_phase == DraftPhase::Pick));
    }
}

/// Under rules with one round of picks and one round of bans in a cycle, the
/// completion test credits one pick for every finished round of picks.
pub proof fn lemma_pick_floor_counts_pick_rounds(turns: nat, players: nat, rules: DraftRulesView)
    requires
        players > 0,
        rules.picks_per_round == 1,
        rules.bans_per_round == 1,
    ensures
        pick_floor(turns, players, rules) == pick_rounds(turns / players, rules),
{
    let n = players as int;
    let cycle = (players * (rules.picks_per_round + rules.bans_per_round)) as int;
    assert(cycle == 2 * n) by (nonlinear_arith)
        requires
            cycle == n * (1 + 1),
    ;
    let cycles = turns as int / cycle;
    let rest = turns as int % cycle;
    lemma_fundamental_div_mod(turns as int, cycle);
    lemma_mod_pos_bound(turns as int, cycle);
    let q = rest / n;
    let r = rest % n;
    lemma_fundamental_div_mod(rest, n);
    lemma_mod_pos_bound(rest, n);
    assert(0 <= q <= 1) by (nonlinear_arith)
        requires
            rest == n * q + r,
            0 <= r < n,
            0 <= rest < 2 * n,
    ;
    assert(turns as int == (2 * cycles + q) * n + r) by (nonlinear_arith)
        requires
            turns as int == cycle * cycles + rest,
            cycle == 2 * n,
            rest == n * q + r,
    ;
    lemma_fundamental_div_mod_converse(turns as int, n, 2 * cycles + q, r);
    assert(cycles >= 0) by (nonlinear_arith)
        requires
            turns as int == cycle * cycles + rest,
            rest < cycle,
            cycle > 0,
            turns >= 0,
    ;
    lemma_pick_rounds_alternating(turns / players, rules);
    assert(1 * players == players) by (nonlinear_arith);
    assert(picks_in_partial_cycle(rest as nat, players, rules) == if rules.starting_phase
        == DraftPhase::Ban {
        0
    } else {
        q
    }) by {
        lemma_partial_cycle_bounds(rest as nat, players, rules);
        if rules.starting_phase == DraftPhase::Pick && rest > n {
            assert(q == 1) by (nonlinear_arith)
                requires
                    rest == n * q + r,
                    0 <= r < n,
                    rest > n,
                    0 <= q <= 1,
            ;
        }
    }
    assert(cycles * 1 == cycles) by (nonlinear_arith);
}

/// Under rules with one round of picks and one round of bans in a cycle, what
/// the completion test credits is what the seat with the fewest picks has:
/// no seat has picked less, and some seat has picked exactly that often.
pub proof fn lemma_pick_floor_is_fewest_picks(turns: nat, players: nat, rules: DraftRulesView)
    requires
        players > 0,
        rules.picks_per_round == 1,
        rules.bans_per_round == 1,
    ensures
        forall|slot: nat|
            slot < players ==> #[trigger] picks_taken(slot, turns, players, rules) >= pick_floor(
                turns,
                players,
                rules,
            ),
        exists|slot: nat|
            slot < players && #[trigger] picks_taken(slot, turns, players, rules) == pick_floor(
                turns,
                players,
                rules,
            ),
{
    lemma_pick_floor_counts_pick_rounds(turns, players, rules);
    lemma_mod_pos_bound(turns as int, players as int);
    assert forall|slot: nat| slot < players implies #[trigger] picks_taken(
        slot,
        turns,
        players,
        rules,
    ) >= pick_floor(turns, players, rules) by {
        lemma_picks_taken_by_rounds(slot, turns, players, rules);
    }
    let last: nat = if rules.turn_type == TurnType::RoundRobin || (turns / players) % 2 == 0 {
        (players - 1) as nat
    } else {
        0
    };
    lemma_picks_taken_by_rounds(last, turns, players, rules);
}

/// Under rules with one round of picks and one round of bans in a cycle, the
/// completion test holds exactly when every seat has made as many picks as a
/// roster takes.
pub proof fn lemma_complete_when_rosters_full(turns: nat, players: nat, rules: DraftRulesView)
    requires
        players > 0,
        rules.picks_per_round == 1,
        rules.bans_per_round == 1,
    ensures
        draft_complete(turns, players, rules) <==> (forall|slot: nat|
            slot < players ==> #[trigger] picks_taken(slot, turns, players, rules)
                >= rules.max_pokemon),
{
    lemma_pick_floor_is_fewest_picks(turns, players, rules);
}

/// When a whole number of cycles is done, every pick of those cycles is
/// credited, and nothing else.
pub proof fn lemma_pick_floor_after_cycles(cycles: nat, players: nat, rules: DraftRulesView)
    requires
        players > 0,
        rules.wf(),
    ensures
        pick_floor(
            cycles * (players * (rules.picks_per_round + rules.bans_per_round)),
            players,
            rules,
        ) == cycles * rules.picks_per_round,
{
    let cycle = (players * (rules.picks_per_round + rules.bans_per_round)) as int;
    assert(cycle >= 1) by (nonlinear_arith)
        requires
            cycle == players * (rules.picks_per_round + rules.bans_per_round),
            players >= 1,
            rules.picks_per_round + rules.bans_per_round >= 1,
    ;
    lemma_fundamental_div_mod_converse(cycles * cycle, cycle, cycles as int, 0);
}

} // verus!
