//! A draft session: its players, its pool, its place in the schedule.

use vstd::prelude::*;
use crate::rules::{text_of, DraftPhase, DraftRules, DraftRulesView};
use crate::picks::picks_taken;
use crate::schedule::{
    action_of_turn, draft_complete, guaranteed_minimum_picks, next_phase, next_turn,
    phase_of_turn, pick_floor, slot_of_turn,
};
use crate::user::{DraftUser, DraftUserView};

verus! {

/// Where a session stands in its life.
#[derive(Debug, PartialEq, Eq, Clone, Copy, Structural)]
pub enum DraftState {
    /// Players may join; nothing has been picked yet.
    Open,
    /// Every player who has joined has declared to be ready.
    Ready,
    /// Nobody may join any more; picks and bans go on.
    InProgress,
    /// Every roster is full. Nothing changes any more.
    Ended,
}

/// The request to create a session.
#[derive(Debug)]
pub struct DraftSessionCreateForm {
    pub name: String,
    pub draft_set: String,
    pub draft_rules: String,
    pub min_num_players: u16,
    pub max_num_players: u16,
}

/// One draft.
#[derive(Debug)]
pub struct DraftSession {
    /// The key under which the session is stored, once stored.
    pub id: Option<String>,
    pub name: String,
    pub min_num_players: u16,
    pub max_num_players: u16,
    /// Every creature picked or banned so far, by anyone.
    pub selected_pokemon: Vec<u32>,
    /// The players in the order in which they joined.
    pub players: Option<Vec<DraftUser>>,
    pub draft_rules: DraftRules,
    pub draft_set: Option<String>,
    /// The player whose turn comes next.
    pub current_player: Option<String>,
    /// The number of turns taken.
    pub turn_ticker: u32,
    pub accepting_players: bool,
    pub draft_state: DraftState,
    /// The action that the next turn asks for.
    pub current_phase: DraftPhase,
}

/// What a session is, with texts and lists as sequences.
pub struct DraftSessionView {
    pub id: Option<Seq<char>>,
    pub name: Seq<char>,
    pub min_num_players: nat,
    pub max_num_players: nat,
    pub selected_pokemon: Seq<u32>,
    pub players: Option<Seq<DraftUserView>>,
    pub draft_rules: DraftRulesView,
    pub draft_set: Option<Seq<char>>,
    pub current_player: Option<Seq<char>>,
    pub turn_ticker: nat,
    pub accepting_players: bool,
    pub draft_state: DraftState,
    pub current_phase: DraftPhase,
}

/// The players of a list, each as what it is.
pub open spec fn roster_view(players: Seq<DraftUser>) -> Seq<DraftUserView> {
    players.map_values(|user: DraftUser| user@)
}

impl View for DraftSession {
    type V = DraftSessionView;

    open spec fn view(&self) -> DraftSessionView {
        DraftSessionView {
            id: text_of(self.id),
            name: self.name@,
            min_num_players: self.min_num_players as nat,
            max_num_players: self.max_num_players as nat,
            selected_pokemon: self.selected_pokemon@,
            players: match self.players {
                Some(players) => Some(roster_view(players@)),
                None => None,
            },
            draft_rules: self.draft_rules@,
            draft_set: text_of(self.draft_set),
            current_player: text_of(self.current_player),
            turn_ticker: self.turn_ticker as nat,
            accepting_players: self.accepting_players,
            draft_state: self.draft_state,
            current_phase: self.current_phase,
        }
    }
}

/// Whether place `i` holds the first player of the list who is stored under `id`.
pub open spec fn first_with_id(roster: Seq<DraftUserView>, id: Option<Seq<char>>, i: int) -> bool {
    &&& 0 <= i < roster.len()
    &&& roster[i].id == id
    &&& forall|j: int| 0 <= j < i ==> (#[trigger] roster[j]).id != id
}

/// The place of the first player of the list who is stored under `id`.
pub open spec fn index_of_id(roster: Seq<DraftUserView>, id: Option<Seq<char>>) -> Option<int> {
    if exists|i: int| first_with_id(roster, id, i) {
        Some(choose|i: int| first_with_id(roster, id, i))
    } else {
        None
    }
}

/// The first player stored under an id is found at its place, and nowhere else.
pub proof fn lemma_index_of_id_found(roster: Seq<DraftUserView>, id: Option<Seq<char>>, i: int)
    requires
        first_with_id(roster, id, i),
    ensures
        index_of_id(roster, id) == Some(i),
{
}

/// Where nobody is stored under an id, nobody is found.
pub proof fn lemma_index_of_id_absent(roster: Seq<DraftUserView>, id: Option<Seq<char>>)
    requires
        forall|j: int| 0 <= j < roster.len() ==> (#[trigger] roster[j]).id != id,
    ensures
        index_of_id(roster, id) is None,
{
}

/// What is found under an id is the first player stored under it.
pub proof fn lemma_index_of_id_is_first(roster: Seq<DraftUserView>, id: Option<Seq<char>>)
    ensures
        match index_of_id(roster, id) {
            Some(i) => first_with_id(roster, id, i),
            None => forall|j: int| 0 <= j < roster.len() ==> (#[trigger] roster[j]).id != id,
        },
{
    if index_of_id(roster, id) is None {
        assert forall|j: int| 0 <= j < roster.len() implies (#[trigger] roster[j]).id != id by {
            if roster[j].id == id {
                lemma_some_first_with_id(roster, id, j);
            }
        }
    }
}

/// Before any player stored under an id stands the first such player, or it
/// is that player itself.
proof fn lemma_some_first_with_id(roster: Seq<DraftUserView>, id: Option<Seq<char>>, j: int)
    requires
        0 <= j < roster.len(),
        roster[j].id == id,
    ensures
        exists|i: int| first_with_id(roster, id, i),
    decreases j,
{
    if exists|k: int| 0 <= k < j && (#[trigger] roster[k]).id == id {
        let k = choose|k: int| 0 <= k < j && (#[trigger] roster[k]).id == id;
        lemma_some_first_with_id(roster, id, k);
    } else {
        assert(first_with_id(roster, id, j));
    }
}

impl DraftSessionView {
    /// The players, in the order in which they joined; none where the list is absent.
    pub open spec fn roster(self) -> Seq<DraftUserView> {
        match self.players {
            Some(players) => players,
            None => Seq::empty(),
        }
    }

    /// Whether a player of the session bears the name.
    pub open spec fn name_taken(self, name: Seq<char>) -> bool {
        exists|i: int| 0 <= i < self.roster().len() && (#[trigger] self.roster()[i]).name == name
    }

    /// The place in the list of the player stored under `id`.
    pub open spec fn player_index(self, id: Seq<char>) -> Option<int> {
        index_of_id(self.roster(), Some(id))
    }

    /// The id of the player on seat `slot`.
    pub open spec fn slot_owner(self, slot: nat) -> Option<Seq<char>> {
        if slot < self.roster().len() {
            self.roster()[slot as int].id
        } else {
            None
        }
    }

    /// The id of the player whom the schedule calls for the next turn.
    pub open spec fn scheduled_player(self) -> Option<Seq<char>> {
        if self.roster().len() > 0 {
            self.slot_owner(
                slot_of_turn(self.turn_ticker, self.roster().len(), self.draft_rules.turn_type),
            )
        } else {
            None
        }
    }

    /// The action that the schedule asks of the next turn.
    pub open spec fn scheduled_phase(self) -> DraftPhase {
        action_of_turn(self.turn_ticker, self.roster().len(), self.draft_rules)
    }

    /// Whether every player has declared to be ready.
    pub open spec fn all_ready(self) -> bool {
        forall|i: int| 0 <= i < self.roster().len() ==> (#[trigger] self.roster()[i]).ready
    }

    /// Whether every roster counts as full once the turn under way is taken.
    pub open spec fn complete_after_turn(self) -> bool {
        draft_complete(self.turn_ticker + 1, self.roster().len(), self.draft_rules)
    }

    /// What a turn needs in order to be scheduled: rules with a cycle that is
    /// not empty, and a number of players and a counter that a turn can still
    /// count with.
    pub open spec fn can_advance(self) -> bool {
        &&& self.draft_rules.wf()
        &&& self.roster().len() <= u32::MAX
        &&& self.turn_ticker < u32::MAX
    }

    /// Whether creature `pokemon_id` is on the roster of the player at place `i`
    /// as pick number `k`.
    pub open spec fn is_pick(self, i: int, k: int, pokemon_id: u32) -> bool {
        &&& 0 <= i < self.roster().len()
        &&& 0 <= k < self.roster()[i].selected_pokemon.len()
        &&& self.roster()[i].selected_pokemon[k] == pokemon_id
    }

    /// What holds of a session at every moment of its life.
    ///
    /// Of its make-up: the rules have a cycle that is not empty; there are no
    /// more players than seats; each player sits on the seat of their place
    /// in the list; no two players bear one name or are stored under one id.
    ///
    /// Of its state: a session is ready only if it has players and all of
    /// them are; a draft in progress admits nobody; turns have been taken only
    /// in a draft that started, and by somebody; a draft that has ended passes
    /// the completion test.
    ///
    /// Of the pool: no creature left it twice; every pick left it; no
    /// creature was picked twice, by one player or by two; and each player has
    /// made as many picks as the schedule has given their seat.
    ///
    /// Of the next turn: the player and the action noted for it are those
    /// that the schedule gives.
    pub open spec fn wf(self) -> bool {
        &&& self.draft_rules.wf()
        &&& self.roster().len() <= self.max_num_players
        &&& forall|i: int|
            0 <= i < self.roster().len() ==> (#[trigger] self.roster()[i]).order_in_session == i
        &&& forall|i: int, j: int|
            0 <= i < j < self.roster().len() ==> (#[trigger] self.roster()[i]).name != (
            #[trigger] self.roster()[j]).name
        &&& forall|i: int, j: int|
            0 <= i < j < self.roster().len() ==> (#[trigger] self.roster()[i]).id != (
            #[trigger] self.roster()[j]).id
        &&& self.draft_state == DraftState::Ready ==> self.roster().len() > 0 && self.all_ready()
        &&& self.draft_state == DraftState::InProgress ==> !self.accepting_players
        &&& self.turn_ticker > 0 ==> self.roster().len() > 0 && (self.draft_state
            == DraftState::InProgress || self.draft_state == DraftState::Ended)
        &&& self.draft_state == DraftState::Ended ==> self.roster().len() > 0 && draft_complete(
            self.turn_ticker,
            self.roster().len(),
            self.draft_rules,
        )
        &&& self.selected_pokemon.no_duplicates()
        &&& forall|i: int, k: int, pokemon_id: u32| #[trigger]
            self.is_pick(i, k, pokemon_id) ==> self.selected_pokemon.contains(pokemon_id)
        &&& forall|i: int, k: int, j: int, l: int, pokemon_id: u32|
            #[trigger] self.is_pick(i, k, pokemon_id) && #[trigger] self.is_pick(j, l, pokemon_id)
                ==> i == j && k == l
        &&& forall|i: int|
            0 <= i < self.roster().len() ==> (#[trigger] self.roster()[i]).selected_pokemon.len()
                == picks_taken(i as nat, self.turn_ticker, self.roster().len(), self.draft_rules)
        &&& self.current_player == self.scheduled_player()
        &&& self.current_phase == self.scheduled_phase()
    }

    /// A session as it is created: open, empty, at its first turn.
    pub open spec fn created(
        name: Seq<char>,
        draft_set: Seq<char>,
        min_num_players: nat,
        max_num_players: nat,
        rules: DraftRulesView,
    ) -> DraftSessionView {
        DraftSessionView {
            id: None,
            name,
            min_num_players,
            max_num_players,
            selected_pokemon: Seq::empty(),
            players: None,
            draft_rules: rules,
            draft_set: Some(draft_set),
            current_player: None,
            turn_ticker: 0,
            accepting_players: true,
            draft_state: DraftState::Open,
            current_phase: rules.starting_phase,
        }
    }
}

impl Default for DraftSession {
    /// A closed, empty session for four players under the standard rules.
    fn default() -> (session: DraftSession)
        ensures
            session@ == (DraftSessionView {
                draft_set: None,
                accepting_players: false,
                ..DraftSessionView::created(
                    Seq::empty(),
                    Seq::empty(),
                    4,
                    4,
                    DraftRulesView::standard(),
                )
            }),
            session@.wf(),
    {
        DraftSession {
            id: None,
            name: String::new(),
            min_num_players: 4,
            max_num_players: 4,
            selected_pokemon: Vec::new(),
            players: None,
            draft_rules: DraftRules::default(),
            draft_set: None,
            current_player: None,
            turn_ticker: 0,
            accepting_players: false,
            draft_state: DraftState::Open,
            current_phase: DraftPhase::Ban,
        }
    }
}

/// Whether two optional texts are the same.
pub fn same_text(a: &Option<String>, b: &Option<String>) -> (same: bool)
    ensures
        same == (text_of(*a) == text_of(*b)),
{
    match a {
        Some(x) => match b {
            Some(y) => *x == *y,
            None => false,
        },
        None => match b {
            Some(_) => false,
            None => true,
        },
    }
}

/// A copy of an optional text.
pub fn copy_text(text: &Option<String>) -> (copy: Option<String>)
    ensures
        text_of(copy) == text_of(*text),
{
    match text {
        Some(t) => Some(t.clone()),
        None => None,
    }
}

/// The place of the first player of the list who is stored under `id`.
pub fn find_player(players: &Vec<DraftUser>, id: &Option<String>) -> (place: Option<usize>)
    ensures
        match place {
            Some(i) => index_of_id(roster_view(players@), text_of(*id)) == Some(i as int),
            None => index_of_id(roster_view(players@), text_of(*id)) is None,
        },
{
    let mut i: usize = 0;
    while i < players.len()
        invariant
            i <= players.len(),
            forall|j: int| 0 <= j < i ==> (#[trigger] roster_view(players@)[j]).id != text_of(*id),
        decreases players.len() - i,
    {
        if same_text(&players[i].id, id) {
            proof {
                lemma_index_of_id_found(roster_view(players@), text_of(*id), i as int);
            }
            return Some(i);
        }
        i += 1;
    }
    proof {
        lemma_index_of_id_absent(roster_view(players@), text_of(*id));
    }
    None
}

impl DraftSession {
    /// A session as the form asks for it, under the given rules: open, empty,
    /// at its first turn.
    pub fn from(form: DraftSessionCreateForm, rules: DraftRules) -> (session: DraftSession)
        ensures
            session@ == DraftSessionView::created(
                form.name@,
                form.draft_set@,
                form.min_num_players as nat,
                form.max_num_players as nat,
                rules@,
            ),
            rules.wf() ==> session@.wf(),
    {
        DraftSession {
            id: None,
            name: form.name,
            min_num_players: form.min_num_players,
            max_num_players: form.max_num_players,
            selected_pokemon: Vec::new(),
            players: None,
            current_phase: rules.starting_phase,
            draft_rules: rules,
            draft_set: Some(form.draft_set),
            current_player: None,
            turn_ticker: 0,
            draft_state: DraftState::Open,
            accepting_players: true,
        }
    }

    /// Whether a player of the session bears the name. Names are compared
    /// character by character, capitals and small letters apart.
    pub fn is_name_taken(&self, name: &str) -> (taken: bool)
        ensures
            taken == self@.name_taken(name@),
    {
        match &self.players {
            Some(players) => {
                let wanted: String = name.to_owned();
                let mut i: usize = 0;
                while i < players.len()
                    invariant
                        i <= players.len(),
                        wanted@ == name@,
                        self.players == Some(*players),
                        forall|j: int|
                            0 <= j < i ==> (#[trigger] self@.roster()[j]).name != name@,
                    decreases players.len() - i,
                {
                    assert(self@.roster()[i as int] == players[i as int]@);
                    if players[i].name == wanted {
                        return true;
                    }
                    i += 1;
                }
                false
            },
            None => false,
        }
    }

    /// Whether the session has what a turn needs in order to be scheduled.
    pub fn can_advance(&self) -> (able: bool)
        ensures
            able == self@.can_advance(),
    {
        let countable: bool = match &self.players {
            Some(players) => players.len() <= u32::MAX as usize,
            None => true,
        };
        self.draft_rules.is_valid() && countable && self.turn_ticker < u32::MAX
    }

    /// The number of players, or the largest number that fits where there are more.
    pub fn num_of_players(&self) -> (count: u32)
        ensures
            count == if self@.roster().len() <= u32::MAX {
                self@.roster().len()
            } else {
                u32::MAX as nat
            },
    {
        match &self.players {
            None => 0,
            Some(players) => {
                if players.len() > u32::MAX as usize {
                    u32::MAX
                } else {
                    players.len() as u32
                }
            },
        }
    }

    /// The counter after the next turn, and the player who acts after that
    /// turn. A session without a list of players stays where it is.
    pub fn get_next_player_id(&self) -> (next: (u32, Option<String>))
        requires
            self@.players is Some ==> 0 < self@.roster().len() <= u32::MAX && self@.turn_ticker
                < u32::MAX,
        ensures
            self@.players is None ==> next.0 == self@.turn_ticker && next.1 is None,
            self@.players is Some ==> next.0 == self@.turn_ticker + 1 && text_of(next.1)
                == self@.slot_owner(
                slot_of_turn(
                    self@.turn_ticker + 1,
                    self@.roster().len(),
                    self@.draft_rules.turn_type,
                ),
            ),
    {
        match &self.players {
            Some(players) => {
                let num_of_players: u32 = players.len() as u32;
                let (ticker, slot) = next_turn(self.turn_ticker, num_of_players, &self.draft_rules);
                (ticker, copy_text(&players[slot as usize].id))
            },
            None => (self.turn_ticker, None),
        }
    }

    /// The action that the turn after the next one asks for.
    pub fn get_next_phase(&self) -> (phase: DraftPhase)
        requires
            0 < self@.roster().len() <= u32::MAX,
            self@.draft_rules.wf(),
            self@.turn_ticker < u32::MAX,
        ensures
            phase == phase_of_turn(
                self@.turn_ticker + 1,
                self@.roster().len(),
                self@.draft_rules,
            ),
    {
        next_phase(self.turn_ticker, &self.draft_rules, self.num_of_players())
    }

    /// Whether every roster counts as full once the next turn is taken.
    pub fn check_if_session_is_over(&self) -> (over: bool)
        requires
            0 < self@.roster().len() <= u32::MAX,
            self@.draft_rules.wf(),
            self@.turn_ticker < u32::MAX,
        ensures
            over == self@.complete_after_turn(),
    {
        self.calculate_pk_num_floor() >= (self.draft_rules.max_pokemon as u32)
    }

    /// The number of picks credited to every player once the next turn is taken.
    pub fn calculate_pk_num_floor(&self) -> (floor: u32)
        requires
            0 < self@.roster().len() <= u32::MAX,
            self@.draft_rules.wf(),
            self@.turn_ticker < u32::MAX,
        ensures
            floor == pick_floor(self@.turn_ticker + 1, self@.roster().len(), self@.draft_rules),
    {
        guaranteed_minimum_picks(self.turn_ticker, &self.draft_rules, self.num_of_players())
    }

    /// Whether the next turn belongs to the player stored under `id`.
    pub fn is_current_player(&self, id: &str) -> (current: bool)
        ensures
            current == (self@.current_player == Some(id@)),
    {
        match &self.current_player {
            Some(t) => {
                let wanted: String = id.to_owned();
                *t == wanted
            },
            None => false,
        }
    }

    /// The name of the first player in the list who is stored under the id
    /// noted for the next turn.
    pub fn get_current_player_name(&self) -> (name: Option<String>)
        ensures
            match index_of_id(self@.roster(), self@.current_player) {
                Some(i) => name is Some && name->0@ == self@.roster()[i].name,
                None => name is None,
            },
    {
        match &self.players {
            Some(players) => {
                match find_player(players, &self.current_player) {
                    Some(i) => {
                        Some(players[i].name.clone())
                    },
                    None => None,
                }
            },
            None => {
                proof {
                    lemma_index_of_id_absent(self@.roster(), self@.current_player);
                }
                None
            },
        }
    }

    /// Whether picks and bans are going on.
    pub fn draft_has_started(&self) -> (started: bool)
        ensures
            started == (self@.draft_state == DraftState::InProgress),
    {
        self.draft_state == DraftState::InProgress
    }

    /// Whether the list of players is there, has a seat left and is open.
    pub fn slots_available(&self) -> (available: bool)
        ensures
            available == (self@.players is Some && self@.roster().len() < self@.max_num_players
                && self@.accepting_players),
    {
        match &self.players {
            Some(p) => p.len() < self.max_num_players as usize && self.accepting_players,
            None => false,
        }
    }

    /// Whether the creature has been picked or banned.
    pub fn is_pokemon_chosen(&self, pk: &u32) -> (chosen: bool)
        ensures
            chosen == self@.selected_pokemon.contains(*pk),
    {
        let mut i: usize = 0;
        while i < self.selected_pokemon.len()
            invariant
                i <= self.selected_pokemon.len(),
                forall|j: int| 0 <= j < i ==> self.selected_pokemon@[j] != *pk,
            decreases self.selected_pokemon.len() - i,
        {
            if self.selected_pokemon[i] == *pk {
                return true;
            }
            i += 1;
        }
        false
    }
}

} // verus!
