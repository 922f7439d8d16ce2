//! The session state machine: joining, declaring readiness, starting, and
//! taking a turn. Every operation either applies as a whole or fails and
//! leaves the session as it was.

use vstd::arithmetic::div_mod::{lemma_basic_div, lemma_small_mod};
use vstd::prelude::*;
use crate::api::{
    ReadyDraftUserForm, SelectPokemonRequest, SelectPokemonResponse, SelectPokemonResponseView,
};
use crate::error::DraftError;
use crate::rules::DraftPhase;
use crate::schedule::{
    action_of_turn, draft_complete, lemma_slot_in_range, phase_of_turn, slot_of_turn,
};
use crate::secret::{fresh_key, hash_secret, key_hash, key_text, secret_from_key, secret_hash};
use crate::picks::{
    lemma_complete_when_rosters_full, lemma_pick_floor_is_lower_bound, picks_taken,
};
use crate::session::{
    copy_text, find_player, index_of_id, lemma_index_of_id_absent, lemma_index_of_id_found,
    lemma_index_of_id_is_first, roster_view, DraftSession, DraftSessionView, DraftState,
};
use crate::user::{
    DraftUser, DraftUserForm, DraftUserReturnData, DraftUserReturnDataView, DraftUserView,
};

verus! {

impl DraftSessionView {
    /// Why a player may not join under `name`, if there is a reason. A session
    /// whose seats are all taken is full whatever else holds; then a name in
    /// use is turned down; then a session that admits nobody counts as full;
    /// then a draft that has started or ended is closed.
    pub open spec fn join_error(self, name: Seq<char>) -> Option<DraftError> {
        if self.roster().len() >= self.max_num_players {
            Some(DraftError::SessionFull)
        } else if self.name_taken(name) {
            Some(DraftError::NameTaken)
        } else if !self.accepting_players {
            Some(DraftError::SessionFull)
        } else if self.draft_state == DraftState::InProgress || self.draft_state
            == DraftState::Ended {
            Some(DraftError::WrongState)
        } else {
            None
        }
    }

    /// The session with `user` on the next seat. The newcomer is not ready,
    /// so the session is open; it stops admitting players when the last seat
    /// is taken; the first player to join gets the first turn.
    pub open spec fn after_join(self, user: DraftUserView) -> DraftSessionView {
        DraftSessionView {
            players: Some(self.roster().push(user)),
            accepting_players: self.roster().len() + 1 < self.max_num_players,
            draft_state: DraftState::Open,
            current_player: if self.roster().len() == 0 {
                user.id
            } else {
                self.current_player
            },
            ..self
        }
    }

    /// The player who joins as `name` under `id` with a secret that hashes to `hash`.
    pub open spec fn newcomer(self, id: Seq<char>, name: Seq<char>, hash: i64) -> DraftUserView {
        DraftUserView::fresh(name, hash, self.roster().len()).with_id(id)
    }

    /// Why the player stored under `user_id` may not turn their readiness
    /// over, if there is a reason.
    pub open spec fn ready_error(self, user_id: Seq<char>) -> Option<DraftError> {
        if self.draft_state == DraftState::InProgress || self.draft_state == DraftState::Ended {
            Some(DraftError::WrongState)
        } else if self.player_index(user_id) is None {
            Some(DraftError::NotFound)
        } else {
            None
        }
    }

    /// The session after the player stored under `user_id` has turned their
    /// readiness over: ready if every player now is, open otherwise.
    pub open spec fn after_toggle(self, user_id: Seq<char>) -> DraftSessionView
        recommends
            self.player_index(user_id) is Some,
    {
        let i = self.player_index(user_id)->0;
        let toggled = DraftSessionView {
            players: Some(self.roster().update(i, self.roster()[i].toggled())),
            ..self
        };
        DraftSessionView {
            draft_state: if toggled.all_ready() {
                DraftState::Ready
            } else {
                DraftState::Open
            },
            ..toggled
        }
    }

    /// The session once picks and bans have begun: in progress, and closed to
    /// newcomers.
    pub open spec fn after_start(self) -> DraftSessionView {
        DraftSessionView {
            draft_state: DraftState::InProgress,
            accepting_players: false,
            ..self
        }
    }

    /// Why the player stored under `user_id` may not take `action` on
    /// creature `pokemon_id`, if there is a reason; `hash` is the hash of the
    /// secret they showed, if it was a key at all. The tests are made in this
    /// order: the draft is in progress; the creature is in the pool; the action
    /// is the one asked for; the turn is the player's; the player is in the
    /// session; the secret is theirs.
    pub open spec fn selection_error(
        self,
        user_id: Seq<char>,
        action: DraftPhase,
        pokemon_id: u32,
        hash: Option<i64>,
    ) -> Option<DraftError> {
        if self.draft_state != DraftState::InProgress {
            Some(DraftError::WrongState)
        } else if self.selected_pokemon.contains(pokemon_id) {
            Some(DraftError::ItemUnavailable)
        } else if action != self.current_phase {
            Some(DraftError::WrongPhase)
        } else if self.current_player != Some(user_id) {
            Some(DraftError::NotYourTurn)
        } else {
            match self.player_index(user_id) {
                None => Some(DraftError::NotFound),
                Some(i) => if hash != Some(self.roster()[i].key_hash) {
                    Some(DraftError::AccessDenied)
                } else {
                    None
                },
            }
        }
    }

    /// The session after the player stored under `user_id` has taken `action`
    /// on creature `pokemon_id`: the creature has left the pool, and joined the
    /// player's roster if it was picked; the counter has gone up by one; the
    /// next player and action are those that the schedule gives for the new
    /// counter; and the draft has ended if every roster now counts as full.
    pub open spec fn after_selection(
        self,
        user_id: Seq<char>,
        action: DraftPhase,
        pokemon_id: u32,
    ) -> DraftSessionView
        recommends
            self.player_index(user_id) is Some,
    {
        let i = self.player_index(user_id)->0;
        let players = self.roster().len();
        DraftSessionView {
            selected_pokemon: self.selected_pokemon.push(pokemon_id),
            players: Some(
                if action == DraftPhase::Pick {
                    self.roster().update(i, self.roster()[i].with_pick(pokemon_id))
                } else {
                    self.roster()
                },
            ),
            current_player: self.slot_owner(
                slot_of_turn(self.turn_ticker + 1, players, self.draft_rules.turn_type),
            ),
            turn_ticker: self.turn_ticker + 1,
            current_phase: phase_of_turn(self.turn_ticker + 1, players, self.draft_rules),
            draft_state: if self.complete_after_turn() {
                DraftState::Ended
            } else {
                self.draft_state
            },
            ..self
        }
    }

    /// What the player stored under `user_id` is told after a turn: their
    /// picks, everything that has left the pool, and the next action.
    pub open spec fn selection_response(self, user_id: Seq<char>) -> SelectPokemonResponseView
        recommends
            self.player_index(user_id) is Some,
    {
        SelectPokemonResponseView {
            selected_pokemon: self.roster()[self.player_index(user_id)->0].selected_pokemon,
            banned_pokemon: self.selected_pokemon,
            phase: self.current_phase,
        }
    }
}

/// Joining keeps a session sound.
pub proof fn lemma_join_keeps_wf(session: DraftSessionView, user: DraftUserView)
    requires
        session.wf(),
        session.join_error(user.name) is None,
        index_of_id(session.roster(), user.id) is None,
        user.order_in_session == session.roster().len(),
        user.selected_pokemon.len() == 0,
    ensures
        session.after_join(user).wf(),
{
    let after = session.after_join(user);
    let n = session.roster().len() as int;
    assert(after.roster() =~= session.roster().push(user));
    lemma_index_of_id_is_first(session.roster(), user.id);
    assert forall|i: int, j: int| 0 <= i < j < after.roster().len() implies (
    #[trigger] after.roster()[i]).id != (#[trigger] after.roster()[j]).id by {
        if j == n {
            assert(session.roster()[i].id != user.id);
        } else {
            assert(after.roster()[i] == session.roster()[i]);
            assert(after.roster()[j] == session.roster()[j]);
        }
    }
    assert forall|i: int, j: int| 0 <= i < j < after.roster().len() implies (
    #[trigger] after.roster()[i]).name != (#[trigger] after.roster()[j]).name by {
        if j == n {
            assert(session.roster()[i].name != user.name);
        } else {
            assert(after.roster()[i] == session.roster()[i]);
            assert(after.roster()[j] == session.roster()[j]);
        }
    }
    assert forall|i: int, k: int, pokemon_id: u32| #[trigger]
        after.is_pick(i, k, pokemon_id) implies session.is_pick(i, k, pokemon_id) by {
        if i < n {
            assert(after.roster()[i] == session.roster()[i]);
        }
    }
    assert(session.turn_ticker == 0);
    assert(slot_of_turn(0, after.roster().len(), after.draft_rules.turn_type) == 0) by {
        lemma_small_mod(0, after.roster().len());
        lemma_basic_div(0, after.roster().len() as int);
    }
    if n > 0 {
        assert(slot_of_turn(0, session.roster().len(), session.draft_rules.turn_type) == 0) by {
            lemma_small_mod(0, session.roster().len());
            lemma_basic_div(0, session.roster().len() as int);
        }
        assert(after.roster()[0] == session.roster()[0]);
    }
}

/// Turning a player's readiness over keeps a session sound.
pub proof fn lemma_toggle_keeps_wf(session: DraftSessionView, user_id: Seq<char>)
    requires
        session.wf(),
        session.ready_error(user_id) is None,
    ensures
        session.after_toggle(user_id).wf(),
{
    let after = session.after_toggle(user_id);
    let i = session.player_index(user_id)->0;
    lemma_index_of_id_is_first(session.roster(), Some(user_id));
    assert(after.roster() =~= session.roster().update(i, session.roster()[i].toggled()));
    assert forall|a: int, k: int, pokemon_id: u32| #[trigger]
        after.is_pick(a, k, pokemon_id) implies session.is_pick(a, k, pokemon_id) by {}
    assert(session.turn_ticker == 0);
    assert(after.scheduled_player() == session.scheduled_player());
}

/// Starting a draft keeps a session sound.
pub proof fn lemma_start_keeps_wf(session: DraftSessionView)
    requires
        session.wf(),
    ensures
        session.after_start().wf(),
{
    let after = session.after_start();
    assert(after.roster() == session.roster());
    assert forall|a: int, k: int, pokemon_id: u32| #[trigger]
        after.is_pick(a, k, pokemon_id) implies session.is_pick(a, k, pokemon_id) by {}
}

/// Taking a turn keeps a session sound.
pub proof fn lemma_selection_keeps_wf(
    session: DraftSessionView,
    user_id: Seq<char>,
    action: DraftPhase,
    pokemon_id: u32,
    hash: Option<i64>,
)
    requires
        session.wf(),
        session.selection_error(user_id, action, pokemon_id, hash) is None,
    ensures
        session.after_selection(user_id, action, pokemon_id).wf(),
{
    let after = session.after_selection(user_id, action, pokemon_id);
    let i = session.player_index(user_id)->0;
    let old_pool = session.selected_pokemon;
    lemma_index_of_id_is_first(session.roster(), Some(user_id));
    assert(after.roster().len() == session.roster().len());
    assert forall|a: int| 0 <= a < after.roster().len() implies (#[trigger] after.roster()[a]).id
        == session.roster()[a].id && after.roster()[a].name == session.roster()[a].name
        && after.roster()[a].order_in_session == session.roster()[a].order_in_session by {}
    assert(after.selected_pokemon.no_duplicates()) by {
        assert forall|a: int, b: int|
            0 <= a < after.selected_pokemon.len() && 0 <= b < after.selected_pokemon.len() && a
                != b implies after.selected_pokemon[a] != after.selected_pokemon[b] by {
            if a < old_pool.len() {
                assert(old_pool.contains(old_pool[a]));
            }
            if b < old_pool.len() {
                assert(old_pool.contains(old_pool[b]));
            }
        }
    }
    assert forall|a: int, k: int, p: u32| #[trigger] after.is_pick(a, k, p) implies (
    session.is_pick(a, k, p) || (p == pokemon_id && a == i && k
        == session.roster()[i].selected_pokemon.len())) by {}
    assert forall|a: int, k: int, p: u32| #[trigger]
        after.is_pick(a, k, p) implies after.selected_pokemon.contains(p) by {
        if session.is_pick(a, k, p) {
            let at = choose|at: int| 0 <= at < old_pool.len() && old_pool[at] == p;
            assert(after.selected_pokemon[at] == p);
        } else {
            assert(after.selected_pokemon[old_pool.len() as int] == p);
        }
    }
    assert forall|a: int, k: int, b: int, l: int, p: u32| #[trigger]
        after.is_pick(a, k, p) && #[trigger] after.is_pick(b, l, p) implies a == b && k == l by {
        if session.is_pick(a, k, p) {
            assert(old_pool.contains(p));
        }
        if session.is_pick(b, l, p) {
            assert(old_pool.contains(p));
        }
    }
    assert(after.scheduled_player() == after.current_player);
}

/// A session whose seats are all taken turns every newcomer down as full. So
/// does a session that admits nobody, unless the name is in use. A name in
/// use is turned down as taken wherever a seat is left.
pub proof fn lemma_join_refused(session: DraftSessionView, name: Seq<char>)
    ensures
        session.roster().len() >= session.max_num_players ==> session.join_error(name) == Some(
            DraftError::SessionFull,
        ),
        !session.accepting_players && !session.name_taken(name) ==> session.join_error(name)
            == Some(DraftError::SessionFull),
        session.roster().len() < session.max_num_players && session.name_taken(name)
            ==> session.join_error(name) == Some(DraftError::NameTaken),
{
}

/// A turn is refused in a session that is open, ready or ended; for a
/// creature that has left the pool; for an action that the turn does not ask
/// for; from a player whose turn it is not; and with a secret that is not the
/// player's.
pub proof fn lemma_selection_refused(
    session: DraftSessionView,
    user_id: Seq<char>,
    action: DraftPhase,
    pokemon_id: u32,
    hash: Option<i64>,
)
    ensures
        session.draft_state != DraftState::InProgress ==> session.selection_error(
            user_id,
            action,
            pokemon_id,
            hash,
        ) == Some(DraftError::WrongState),
        session.selected_pokemon.contains(pokemon_id) || action != session.current_phase
            || session.current_player != Some(user_id) ==> session.selection_error(
            user_id,
            action,
            pokemon_id,
            hash,
        ) is Some,
        session.player_index(user_id) is Some && hash != Some(
            session.roster()[session.player_index(user_id)->0].key_hash,
        ) ==> session.selection_error(user_id, action, pokemon_id, hash) is Some,
{
}

/// In a sound session a turn is taken by the player on the seat that the
/// schedule calls, with the action that the schedule asks for.
pub proof fn lemma_selection_follows_schedule(
    session: DraftSessionView,
    user_id: Seq<char>,
    action: DraftPhase,
    pokemon_id: u32,
    hash: Option<i64>,
)
    requires
        session.wf(),
        session.selection_error(user_id, action, pokemon_id, hash) is None,
    ensures
        session.roster().len() > 0,
        session.player_index(user_id) == Some(
            slot_of_turn(
                session.turn_ticker,
                session.roster().len(),
                session.draft_rules.turn_type,
            ) as int,
        ),
        action == action_of_turn(session.turn_ticker, session.roster().len(), session.draft_rules),
{
    lemma_index_of_id_is_first(session.roster(), Some(user_id));
    let i = session.player_index(user_id)->0;
    let slot = slot_of_turn(
        session.turn_ticker,
        session.roster().len(),
        session.draft_rules.turn_type,
    ) as int;
    lemma_slot_in_range(
        session.turn_ticker,
        session.roster().len(),
        session.draft_rules.turn_type,
    );
    if i < slot {
        assert(session.roster()[i].id != session.roster()[slot].id);
    }
    if slot < i {
        assert(session.roster()[slot].id != session.roster()[i].id);
    }
}

/// Under rules with no more rounds of picks than of bans in a cycle, a
/// sound session that has ended has every roster full.
pub proof fn lemma_ended_rosters_full(session: DraftSessionView)
    requires
        session.wf(),
        session.draft_state == DraftState::Ended,
        session.draft_rules.picks_per_round <= session.draft_rules.bans_per_round,
    ensures
        forall|i: int|
            0 <= i < session.roster().len() ==> (
            #[trigger] session.roster()[i]).selected_pokemon.len()
                >= session.draft_rules.max_pokemon,
{
    assert forall|i: int| 0 <= i < session.roster().len() implies (
    #[trigger] session.roster()[i]).selected_pokemon.len()
        >= session.draft_rules.max_pokemon by {
        lemma_pick_floor_is_lower_bound(
            i as nat,
            session.turn_ticker,
            session.roster().len(),
            session.draft_rules,
        );
    }
}

/// Under rules with one round of picks and one round of bans in a cycle, a
/// sound session in which every roster is full passes the completion test:
/// the turn that fills the last roster ends the draft.
pub proof fn lemma_full_rosters_complete(session: DraftSessionView)
    requires
        session.wf(),
        session.roster().len() > 0,
        session.draft_rules.picks_per_round == 1,
        session.draft_rules.bans_per_round == 1,
        forall|i: int|
            0 <= i < session.roster().len() ==> (
            #[trigger] session.roster()[i]).selected_pokemon.len()
                >= session.draft_rules.max_pokemon,
    ensures
        draft_complete(session.turn_ticker, session.roster().len(), session.draft_rules),
{
    let players = session.roster().len();
    lemma_complete_when_rosters_full(
        session.turn_ticker,
        players,
        session.draft_rules,
    );
    assert forall|slot: nat| slot < players implies #[trigger] picks_taken(
        slot,
        session.turn_ticker,
        players,
        session.draft_rules,
    ) >= session.draft_rules.max_pokemon by {
        assert(session.roster()[slot as int].selected_pokemon.len() >= session.draft_rules.max_pokemon);
    }
}

impl DraftSessionView {
    /// The key of the session as a text; empty where the session is not stored.
    pub open spec fn id_text(self) -> Seq<char> {
        match self.id {
            Some(id) => id,
            None => Seq::empty(),
        }
    }

    /// Whether `after` and `answer` are what comes of this session when a
    /// player joins as `name` under `id` with the secret `key`: the player sits
    /// on the next seat with the hash of the key, and the answer holds the text
    /// of the key.
    pub open spec fn joined_with_key(
        self,
        after: DraftSessionView,
        answer: DraftUserReturnDataView,
        id: Seq<char>,
        name: Seq<char>,
        key: u128,
    ) -> bool {
        &&& after == self.after_join(self.newcomer(id, name, key_hash(key)))
        &&& answer == (DraftUserReturnDataView {
            name,
            session_id: self.id_text(),
            user_id: id,
            current_turn: false,
            key: key_text(key),
        })
    }
}

/// Tests whether a player may join the session under `name`.
pub fn check_join(session: &DraftSession, name: &str) -> (result: Result<(), DraftError>)
    ensures
        match result {
            Ok(_) => session@.join_error(name@) is None,
            Err(error) => session@.join_error(name@) == Some(error),
        },
{
    let seats_taken: bool = match &session.players {
        Some(players) => players.len() >= session.max_num_players as usize,
        None => session.max_num_players == 0,
    };
    if seats_taken {
        return Err(DraftError::SessionFull);
    }
    if session.is_name_taken(name) {
        return Err(DraftError::NameTaken);
    }
    if !session.accepting_players {
        return Err(DraftError::SessionFull);
    }
    if session.draft_state == DraftState::InProgress || session.draft_state == DraftState::Ended {
        return Err(DraftError::WrongState);
    }
    Ok(())
}

/// Seats a player at the end of the list. The session is open afterwards; it
/// stops admitting players when the last seat is taken; and the first player
/// to be seated gets the first turn.
pub fn seat_player(session: &mut DraftSession, user: DraftUser)
    ensures
        final(session)@ == old(session)@.after_join(user@),
{
    let ghost before = session@;
    let seats_taken: usize = match &session.players {
        Some(players) => players.len(),
        None => 0,
    };
    if seats_taken == 0 {
        session.current_player = copy_text(&user.id);
    }
    session.accepting_players = seats_taken < usize::MAX && seats_taken + 1
        < session.max_num_players as usize;
    session.draft_state = DraftState::Open;
    match &mut session.players {
        Some(players) => {
            players.push(user);
        },
        None => {
            let mut players: Vec<DraftUser> = Vec::new();
            players.push(user);
            session.players = Some(players);
        },
    }
    assert(session@.players->0 =~= before.roster().push(user@));
}

/// Lets a player join as `form.name` under `user_id` with the secret `key`,
/// or says why not. The answer holds the text of the key, which the session
/// itself does not keep.
pub fn create_user_with_key(
    session: &mut DraftSession,
    form: DraftUserForm,
    user_id: String,
    key: u128,
) -> (result: Result<DraftUserReturnData, DraftError>)
    ensures
        match result {
            Ok(answer) => {
                &&& old(session)@.join_error(form.name@) is None
                &&& old(session)@.joined_with_key(
                    final(session)@,
                    answer@,
                    user_id@,
                    form.name@,
                    key,
                )
                &&& secret_hash(answer@.key) == Some(
                    final(session)@.roster().last().key_hash,
                )
            },
            Err(error) => {
                &&& old(session)@.join_error(form.name@) == Some(error)
                &&& *final(session) == *old(session)
            },
        },
        old(session)@.wf() && old(session)@.player_index(user_id@) is None
            ==> final(session)@.wf(),
{
    match check_join(session, form.name.as_str()) {
        Err(error) => {
            return Err(error);
        },
        Ok(_) => {},
    }
    let ghost before = session@;
    let (hash, secret) = secret_from_key(key);
    let order: u32 = session.num_of_players();
    let mut user = DraftUser::new(form.name.clone(), hash, order);
    user.id = Some(user_id.clone());
    let session_id: String = match &session.id {
        Some(id) => id.clone(),
        None => String::new(),
    };
    proof {
        assert(user@ == before.newcomer(user_id@, form.name@, hash));
        if before.wf() && before.player_index(user_id@) is None {
            lemma_join_keeps_wf(before, user@);
        }
    }
    seat_player(session, user);
    Ok(DraftUserReturnData::new(form.name, session_id, user_id, false, secret))
}

/// Lets a player join as `form.name` under `user_id`, or says why not. A
/// player who joins gets a secret drawn at random; the answer holds its text,
/// the session only its hash, so that the text cannot be had again later.
pub fn create_user(session: &mut DraftSession, form: DraftUserForm, user_id: String) -> (result:
    Result<DraftUserReturnData, DraftError>)
    ensures
        match result {
            Ok(answer) => {
                &&& old(session)@.join_error(form.name@) is None
                &&& exists|key: u128| #[trigger]
                    old(session)@.joined_with_key(
                        final(session)@,
                        answer@,
                        user_id@,
                        form.name@,
                        key,
                    )
                &&& secret_hash(answer@.key) == Some(
                    final(session)@.roster().last().key_hash,
                )
            },
            Err(error) => {
                &&& old(session)@.join_error(form.name@) == Some(error)
                &&& *final(session) == *old(session)
            },
        },
        old(session)@.wf() && old(session)@.player_index(user_id@) is None
            ==> final(session)@.wf(),
{
    let key: u128 = fresh_key();
    create_user_with_key(session, form, user_id, key)
}

/// Turns the readiness of the player named in the form over, or says why
/// not. The session is ready afterwards if every player is, and open
/// otherwise; the new state is returned.
pub fn toggle_ready(session: &mut DraftSession, form: &ReadyDraftUserForm) -> (result: Result<
    DraftState,
    DraftError,
>)
    ensures
        match result {
            Ok(state) => {
                &&& old(session)@.ready_error(form.user_id@) is None
                &&& final(session)@ == old(session)@.after_toggle(form.user_id@)
                &&& state == final(session)@.draft_state
            },
            Err(error) => {
                &&& old(session)@.ready_error(form.user_id@) == Some(error)
                &&& *final(session) == *old(session)
            },
        },
        old(session)@.wf() ==> final(session)@.wf(),
{
    if session.draft_state == DraftState::InProgress || session.draft_state == DraftState::Ended {
        return Err(DraftError::WrongState);
    }
    let ghost before = session@;
    let wanted: Option<String> = Some(form.user_id.clone());
    let place: Option<usize> = match &session.players {
        Some(players) => find_player(players, &wanted),
        None => {
            proof {
                lemma_index_of_id_absent(before.roster(), Some(form.user_id@));
            }
            None
        },
    };
    let i: usize = match place {
        Some(i) => i,
        None => {
            return Err(DraftError::NotFound);
        },
    };
    let mut all_players_ready: bool = true;
    match &mut session.players {
        Some(players) => {
            let ready: bool = !players[i].ready;
            players[i].ready = ready;
            assert(roster_view(players@) =~= before.roster().update(
                i as int,
                before.roster()[i as int].toggled(),
            ));
            let mut j: usize = 0;
            while j < players.len()
                invariant
                    j <= players.len(),
                    all_players_ready == (forall|k: int|
                        0 <= k < j ==> (#[trigger] roster_view(players@)[k]).ready),
                decreases players.len() - j,
            {
                assert(roster_view(players@)[j as int] == players[j as int]@);
                all_players_ready = all_players_ready && players[j].ready;
                j += 1;
            }
        },
        None => {},
    }
    session.draft_state = if all_players_ready {
        DraftState::Ready
    } else {
        DraftState::Open
    };
    proof {
        assert(session@ == before.after_toggle(form.user_id@));
        if before.wf() {
            lemma_toggle_keeps_wf(before, form.user_id@);
        }
    }
    Ok(session.draft_state)
}

/// Begins the picks and bans, whatever state the session is in, and closes
/// it to newcomers.
pub fn start(session: &mut DraftSession)
    ensures
        final(session)@ == old(session)@.after_start(),
        old(session)@.wf() ==> final(session)@.wf(),
{
    proof {
        if session@.wf() {
            lemma_start_keeps_wf(session@);
        }
    }
    session.draft_state = DraftState::InProgress;
    session.accepting_players = false;
}

/// Takes a turn for the player stored under `user_id`, or says why not;
/// `hash` is the hash of the secret that the player showed, or `None` if what
/// they showed was no key.
pub fn apply_selection(
    session: &mut DraftSession,
    user_id: &str,
    action: DraftPhase,
    pokemon_id: u32,
    hash: Option<i64>,
) -> (result: Result<SelectPokemonResponse, DraftError>)
    requires
        old(session)@.can_advance(),
    ensures
        match result {
            Ok(response) => {
                &&& old(session)@.selection_error(user_id@, action, pokemon_id, hash) is None
                &&& final(session)@ == old(session)@.after_selection(user_id@, action, pokemon_id)
                &&& response@ == final(session)@.selection_response(user_id@)
            },
            Err(error) => {
                &&& old(session)@.selection_error(user_id@, action, pokemon_id, hash) == Some(
                    error,
                )
                &&& *final(session) == *old(session)
            },
        },
        old(session)@.wf() ==> final(session)@.wf(),
{
    let ghost before = session@;
    if session.draft_state != DraftState::InProgress {
        return Err(DraftError::WrongState);
    }
    if session.is_pokemon_chosen(&pokemon_id) {
        return Err(DraftError::ItemUnavailable);
    }
    if action != session.current_phase {
        return Err(DraftError::WrongPhase);
    }
    if !session.is_current_player(user_id) {
        return Err(DraftError::NotYourTurn);
    }
    let wanted: Option<String> = Some(user_id.to_owned());
    let place: Option<(usize, i64)> = match &session.players {
        Some(players) => match find_player(players, &wanted) {
            Some(i) => {
                assert(before.roster()[i as int] == players[i as int]@);
                Some((i, players[i].key_hash))
            },
            None => None,
        },
        None => {
            proof {
                lemma_index_of_id_absent(before.roster(), Some(user_id@));
            }
            None
        },
    };
    let (i, stored_hash): (usize, i64) = match place {
        Some(found) => found,
        None => {
            return Err(DraftError::NotFound);
        },
    };
    match hash {
        Some(shown) => {
            if shown != stored_hash {
                return Err(DraftError::AccessDenied);
            }
        },
        None => {
            return Err(DraftError::AccessDenied);
        },
    }
    let (turn, next_player) = session.get_next_player_id();
    let next_phase: DraftPhase = session.get_next_phase();
    let over: bool = session.check_if_session_is_over();
    let mut picks: Vec<u32> = Vec::new();
    match &mut session.players {
        Some(players) => {
            if action == DraftPhase::Pick {
                players[i].selected_pokemon.push(pokemon_id);
            }
            picks = players[i].selected_pokemon.clone();
            assert(roster_view(players@) =~= before.after_selection(
                user_id@,
                action,
                pokemon_id,
            ).roster());
        },
        None => {},
    }
    session.selected_pokemon.push(pokemon_id);
    session.turn_ticker = turn;
    session.current_player = next_player;
    session.current_phase = next_phase;
    if over {
        session.draft_state = DraftState::Ended;
    }
    proof {
        assert(session@ == before.after_selection(user_id@, action, pokemon_id));
        lemma_index_of_id_is_first(before.roster(), Some(user_id@));
        assert forall|j: int| 0 <= j < session@.roster().len() implies (
        #[trigger] session@.roster()[j]).id == before.roster()[j].id by {}
        lemma_index_of_id_found(session@.roster(), Some(user_id@), i as int);
        if before.wf() {
            lemma_selection_keeps_wf(before, user_id@, action, pokemon_id, hash);
        }
    }
    Ok(
        SelectPokemonResponse {
            selected_pokemon: picks,
            banned_pokemon: session.selected_pokemon.clone(),
            phase: next_phase,
        },
    )
}

/// Takes the turn that a request asks for, or says why not. The secret in
/// the request is hashed and compared with the hash that the session keeps
/// for the player.
pub fn select_pokemon(session: &mut DraftSession, request: &SelectPokemonRequest) -> (result:
    Result<SelectPokemonResponse, DraftError>)
    requires
        old(session)@.can_advance(),
    ensures
        match result {
            Ok(response) => {
                &&& old(session)@.selection_error(
                    request.user_id@,
                    request.action,
                    request.pokemon_id,
                    secret_hash(request.secret@),
                ) is None
                &&& final(session)@ == old(session)@.after_selection(
                    request.user_id@,
                    request.action,
                    request.pokemon_id,
                )
                &&& response@ == final(session)@.selection_response(request.user_id@)
            },
            Err(error) => {
                &&& old(session)@.selection_error(
                    request.user_id@,
                    request.action,
                    request.pokemon_id,
                    secret_hash(request.secret@),
                ) == Some(error)
                &&& *final(session) == *old(session)
            },
        },
        old(session)@.wf() ==> final(session)@.wf(),
{
    let hash: Option<i64> = hash_secret(request.secret.as_str());
    apply_selection(
        session,
        request.user_id.as_str(),
        request.action,
        request.pokemon_id,
        hash,
    )
}

} // verus!
