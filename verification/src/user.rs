//! A player of a draft session.

use vstd::prelude::*;
use crate::rules::text_of;

verus! {

/// A participant: who they are, where they sit, what they have picked.
#[derive(Debug)]
pub struct DraftUser {
    /// The key under which the player is stored, once stored.
    pub id: Option<String>,
    /// The name, which no other player of the session bears.
    pub name: String,
    /// The key of the session that the player belongs to.
    pub session: Option<String>,
    /// The creatures picked so far, in the order of picking. Bans are not kept here.
    pub selected_pokemon: Vec<u32>,
    /// The hash of the player's secret.
    pub key_hash: i64,
    /// The seat: the number of players that had joined before this one.
    pub order_in_session: u32,
    /// Whether the player has declared to be ready for the draft to start.
    pub ready: bool,
}

/// What a player is, with texts as sequences of characters.
pub struct DraftUserView {
    pub id: Option<Seq<char>>,
    pub name: Seq<char>,
    pub session: Option<Seq<char>>,
    pub selected_pokemon: Seq<u32>,
    pub key_hash: i64,
    pub order_in_session: nat,
    pub ready: bool,
}

impl View for DraftUser {
    type V = DraftUserView;

    open spec fn view(&self) -> DraftUserView {
        DraftUserView {
            id: text_of(self.id),
            name: self.name@,
            session: text_of(self.session),
            selected_pokemon: self.selected_pokemon@,
            key_hash: self.key_hash,
            order_in_session: self.order_in_session as nat,
            ready: self.ready,
        }
    }
}

impl DraftUserView {
    /// A player who has just been given a seat: not stored yet, not ready,
    /// with nothing picked.
    pub open spec fn fresh(name: Seq<char>, key_hash: i64, order: nat) -> DraftUserView {
        DraftUserView {
            id: None,
            name,
            session: None,
            selected_pokemon: Seq::empty(),
            key_hash,
            order_in_session: order,
            ready: false,
        }
    }

    /// The same player stored under `id`.
    pub open spec fn with_id(self, id: Seq<char>) -> DraftUserView {
        DraftUserView { id: Some(id), ..self }
    }

    /// The same player with the readiness flag turned over.
    pub open spec fn toggled(self) -> DraftUserView {
        DraftUserView { ready: !self.ready, ..self }
    }

    /// The same player with one more pick.
    pub open spec fn with_pick(self, pokemon_id: u32) -> DraftUserView {
        DraftUserView { selected_pokemon: self.selected_pokemon.push(pokemon_id), ..self }
    }
}

impl Default for DraftUser {
    /// A nameless player on seat 0.
    fn default() -> (user: DraftUser)
        ensures
            user@ == DraftUserView::fresh(Seq::empty(), 0, 0),
    {
        DraftUser {
            id: None,
            name: String::new(),
            session: None,
            selected_pokemon: Vec::new(),
            key_hash: 0,
            order_in_session: 0,
            ready: false,
        }
    }
}

impl DraftUser {
    /// A player for seat `order`, whose secret hashes to `key`.
    pub fn new(name: String, key: i64, order: u32) -> (user: DraftUser)
        ensures
            user@ == DraftUserView::fresh(name@, key, order as nat),
    {
        DraftUser {
            id: None,
            name: name,
            session: None,
            selected_pokemon: Vec::new(),
            key_hash: key,
            order_in_session: order,
            ready: false,
        }
    }

    /// Whether `key` is the hash of this player's secret.
    pub fn check_key_hash(&self, key: i64) -> (matches: bool)
        ensures
            matches == (self@.key_hash == key),
    {
        self.key_hash == key
    }
}

/// What a player is told on joining. The secret's text is in it, and nowhere
/// else: the session keeps its hash only.
#[derive(Debug)]
pub struct DraftUserReturnData {
    pub name: String,
    pub session_id: String,
    pub user_id: String,
    pub current_turn: bool,
    pub key: String,
}

/// What a player is told on joining, with texts as sequences of characters.
pub struct DraftUserReturnDataView {
    pub name: Seq<char>,
    pub session_id: Seq<char>,
    pub user_id: Seq<char>,
    pub current_turn: bool,
    pub key: Seq<char>,
}

impl View for DraftUserReturnData {
    type V = DraftUserReturnDataView;

    open spec fn view(&self) -> DraftUserReturnDataView {
        DraftUserReturnDataView {
            name: self.name@,
            session_id: self.session_id@,
            user_id: self.user_id@,
            current_turn: self.current_turn,
            key: self.key@,
        }
    }
}

impl DraftUserReturnData {
    /// Puts the answer to a join together.
    pub fn new(
        name: String,
        session_id: String,
        user_id: String,
        current_turn: bool,
        key: String,
    ) -> (data: DraftUserReturnData)
        ensures
            data@ == (DraftUserReturnDataView {
                name: name@,
                session_id: session_id@,
                user_id: user_id@,
                current_turn,
                key: key@,
            }),
    {
        DraftUserReturnData {
            name: name,
            session_id: session_id,
            user_id: user_id,
            current_turn: current_turn,
            key: key,
        }
    }
}

/// The request to join a session.
#[derive(Debug)]
pub struct DraftUserForm {
    pub name: String,
}

} // verus!
