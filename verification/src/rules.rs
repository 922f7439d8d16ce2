//! The rule set of a draft: how many picks and bans make up a cycle, how many
//! picks fill a roster, which action opens the draft and how turns rotate.

use vstd::prelude::*;

verus! {

/// The action a turn asks for.
#[derive(Debug, PartialEq, Eq, Clone, Copy, Structural)]
pub enum DraftPhase {
    Pick,
    Ban,
}

/// How the turn order runs through the players from one round to the next.
#[derive(Debug, PartialEq, Eq, Clone, Copy, Structural)]
pub enum TurnType {
    RoundRobin,
    Snake,
}

/// The configuration a session is created with.
#[derive(Debug)]
pub struct DraftRules {
    pub id: Option<String>,
    pub name: String,
    pub picks_per_round: u16,
    pub bans_per_round: u16,
    pub max_pokemon: u16,
    pub starting_phase: DraftPhase,
    pub turn_type: TurnType,
}

/// What a rule set is, with its texts as sequences of characters.
pub struct DraftRulesView {
    pub id: Option<Seq<char>>,
    pub name: Seq<char>,
    pub picks_per_round: nat,
    pub bans_per_round: nat,
    pub max_pokemon: nat,
    pub starting_phase: DraftPhase,
    pub turn_type: TurnType,
}

/// The characters of an optional text.
pub open spec fn text_of(s: Option<String>) -> Option<Seq<char>> {
    match s {
        Some(t) => Some(t@),
        None => None,
    }
}

impl View for DraftRules {
    type V = DraftRulesView;

    open spec fn view(&self) -> DraftRulesView {
        DraftRulesView {
            id: text_of(self.id),
            name: self.name@,
            picks_per_round: self.picks_per_round as nat,
            bans_per_round: self.bans_per_round as nat,
            max_pokemon: self.max_pokemon as nat,
            starting_phase: self.starting_phase,
            turn_type: self.turn_type,
        }
    }
}

impl DraftRulesView {
    /// A cycle of the schedule holds at least one round.
    pub open spec fn wf(self) -> bool {
        self.picks_per_round + self.bans_per_round >= 1
    }

    /// The rules that a session has where none are chosen: one round of bans,
    /// then one round of picks, in snake order, for a roster of one.
    pub open spec fn standard() -> DraftRulesView {
        DraftRulesView {
            id: None,
            name: Seq::empty(),
            picks_per_round: 1,
            bans_per_round: 1,
            max_pokemon: 1,
            starting_phase: DraftPhase::Ban,
            turn_type: TurnType::Snake,
        }
    }
}

impl DraftRules {
    /// A cycle of the schedule holds at least one round.
    pub open spec fn wf(&self) -> bool {
        self@.wf()
    }

    /// Tells whether the rules describe a cycle with at least one round.
    pub fn is_valid(&self) -> (r: bool)
        ensures
            r == self.wf(),
    {
        self.picks_per_round > 0 || self.bans_per_round > 0
    }
}

impl Default for DraftRules {
    /// One round of bans, then one round of picks, in snake order, for a
    /// roster of one.
    fn default() -> (rules: DraftRules)
        ensures
            rules@ == DraftRulesView::standard(),
            rules.wf(),
    {
        DraftRules {
            id: None,
            name: String::new(),
            picks_per_round: 1,
            bans_per_round: 1,
            max_pokemon: 1,
            starting_phase: DraftPhase::Ban,
            turn_type: TurnType::Snake,
        }
    }
}

} // verus!
