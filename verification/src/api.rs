//! The requests that players send and the answers they get.

use vstd::prelude::*;
use vstd::string::StringExecFns;
use crate::pokemon::PokemonType;
use crate::rules::{text_of, DraftPhase};
use crate::session::{
    find_player, index_of_id, roster_view, DraftSession, DraftSessionView, DraftState,
};
use crate::user::{DraftUser, DraftUserView};

verus! {

/// The request to pick or ban a creature.
#[derive(Debug)]
pub struct SelectPokemonRequest {
    pub user_id: String,
    pub pokemon_id: u32,
    pub action: DraftPhase,
    pub secret: String,
}

/// The answer to a pick or ban: the player's picks, everything that has left
/// the pool, and the action that the next turn asks for.
#[derive(Debug)]
pub struct SelectPokemonResponse {
    pub selected_pokemon: Vec<u32>,
    pub banned_pokemon: Vec<u32>,
    pub phase: DraftPhase,
}

/// The answer to a pick or ban, with lists as sequences.
pub struct SelectPokemonResponseView {
    pub selected_pokemon: Seq<u32>,
    pub banned_pokemon: Seq<u32>,
    pub phase: DraftPhase,
}

impl View for SelectPokemonResponse {
    type V = SelectPokemonResponseView;

    open spec fn view(&self) -> SelectPokemonResponseView {
        SelectPokemonResponseView {
            selected_pokemon: self.selected_pokemon@,
            banned_pokemon: self.banned_pokemon@,
            phase: self.phase,
        }
    }
}

/// What a session shows of one player.
#[derive(Debug)]
pub struct PlayerData {
    pub name: String,
    pub pokemon: Vec<u32>,
    pub ready: bool,
}

/// What a session shows of one player, with texts and lists as sequences.
pub struct PlayerDataView {
    pub name: Seq<char>,
    pub pokemon: Seq<u32>,
    pub ready: bool,
}

impl View for PlayerData {
    type V = PlayerDataView;

    open spec fn view(&self) -> PlayerDataView {
        PlayerDataView { name: self.name@, pokemon: self.pokemon@, ready: self.ready }
    }
}

/// What a session shows of its players to somebody who polls it.
#[derive(Debug)]
pub struct UpdateDraftSessionResponse {
    pub current_phase: DraftPhase,
    pub banned_pokemon: Vec<u32>,
    pub current_player: Option<String>,
    pub players: Vec<PlayerData>,
    pub state: DraftState,
}

/// What a session shows of its players, with texts and lists as sequences.
pub struct UpdateDraftSessionResponseView {
    pub current_phase: DraftPhase,
    pub banned_pokemon: Seq<u32>,
    pub current_player: Option<Seq<char>>,
    pub players: Seq<PlayerDataView>,
    pub state: DraftState,
}

impl View for UpdateDraftSessionResponse {
    type V = UpdateDraftSessionResponseView;

    open spec fn view(&self) -> UpdateDraftSessionResponseView {
        UpdateDraftSessionResponseView {
            current_phase: self.current_phase,
            banned_pokemon: self.banned_pokemon@,
            current_player: text_of(self.current_player),
            players: self.players@.map_values(|player: PlayerData| player@),
            state: self.state,
        }
    }
}

/// A creature as a roster lists it.
#[derive(Debug)]
pub struct PokemonSubData<'a> {
    pub name: &'a str,
    pub type1: PokemonType,
    pub type2: PokemonType,
    pub id: u32,
}

/// The request to turn a player's readiness over, and to start a session.
#[derive(Debug)]
pub struct ReadyDraftUserForm {
    pub user_id: String,
}

impl DraftUserView {
    /// What a session shows of this player.
    pub open spec fn shown(self) -> PlayerDataView {
        PlayerDataView { name: self.name, pokemon: self.selected_pokemon, ready: self.ready }
    }
}

impl DraftSessionView {
    /// What the session shows to somebody who polls it: the next action, the
    /// creatures that left the pool, the name of the first player stored under
    /// the id noted for the next turn, every player, and the state.
    pub open spec fn shown(self) -> UpdateDraftSessionResponseView {
        UpdateDraftSessionResponseView {
            current_phase: self.current_phase,
            banned_pokemon: self.selected_pokemon,
            current_player: match index_of_id(self.roster(), self.current_player) {
                Some(i) => Some(self.roster()[i].name),
                None => None,
            },
            players: self.roster().map_values(|user: DraftUserView| user.shown()),
            state: self.draft_state,
        }
    }
}

impl UpdateDraftSessionResponse {
    /// What the session shows to somebody who polls it.
    pub fn from(session: DraftSession) -> (response: UpdateDraftSessionResponse)
        ensures
            response@ == session@.shown(),
    {
        let current_player_name = session.get_current_player_name();
        let mut player_data: Vec<PlayerData> = Vec::new();
        match &session.players {
            Some(players) => {
                let mut i: usize = 0;
                while i < players.len()
                    invariant
                        i <= players.len(),
                        session.players == Some(*players),
                        player_data@.len() == i,
                        forall|j: int|
                            0 <= j < i ==> (#[trigger] player_data@[j])@
                                == session@.roster()[j].shown(),
                    decreases players.len() - i,
                {
                    player_data.push(
                        PlayerData {
                            name: players[i].name.clone(),
                            pokemon: players[i].selected_pokemon.clone(),
                            ready: players[i].ready,
                        },
                    );
                    i += 1;
                }
            },
            None => {},
        }
        let response = UpdateDraftSessionResponse {
            banned_pokemon: session.selected_pokemon,
            current_phase: session.current_phase,
            current_player: current_player_name,
            players: player_data,
            state: session.draft_state,
        };
        assert(response@.players =~= session@.shown().players);
        response
    }
}

/// The first player of the list who is stored under `id`, taken out of it.
pub fn get_current_player(players: Vec<DraftUser>, id: &str) -> (player: Option<DraftUser>)
    ensures
        match index_of_id(roster_view(players@), Some(id@)) {
            Some(i) => player == Some(players@[i]),
            None => player is None,
        },
{
    let mut players = players;
    let wanted: Option<String> = Some(id.to_owned());
    match find_player(&players, &wanted) {
        Some(i) => Some(players.remove(i)),
        None => None,
    }
}

/// Wraps a sentence as the body of an answer: an object with the one field
/// `message`. The sentence is put between the quotes as it is.
pub fn to_json_msg(msg: &str) -> (body: String)
    ensures
        body@ == "{\"message\": \""@ + msg@ + "\"}"@,
{
    let mut body: String = "{\"message\": \"".to_owned();
    body.append(msg);
    body.append("\"}");
    body
}

/// The answer to the creation of a rule set: an object with the id of the
/// first record that the store made, or with a message where it made none.
pub fn rules_created_reply(ids: &Vec<String>) -> (body: String)
    ensures
        body@ == if ids@.len() > 0 {
            "{\"id\": \""@ + ids@[0]@ + "\"}"@
        } else {
            "{\"message\": \""@ + "Could not create Draft Rule"@ + "\"}"@
        },
{
    if ids.len() > 0 {
        let mut body: String = "{\"id\": \"".to_owned();
        body.append(ids[0].as_str());
        body.append("\"}");
        body
    } else {
        to_json_msg("Could not create Draft Rule")
    }
}

/// The answer to a browser that asks whether it may send the request to
/// create a session.
pub fn option_draft_session<'a>() -> (answer: &'a str)
    ensures
        answer@ == "Ok"@,
{
    "Ok"
}

/// The answer to a browser that asks whether it may send the request to join
/// session `id`.
pub fn option_create_user<'a>(id: &str) -> (answer: &'a str)
    ensures
        answer@ == "Ok"@,
{
    let _id = id;
    "Ok"
}

/// The answer to a browser that asks whether it may send a pick or ban to
/// session `id`.
pub fn option_select_pokemon<'a>(id: &str) -> (answer: &'a str)
    ensures
        answer@ == "Ok"@,
{
    let _id = id;
    "Ok"
}

} // verus!
