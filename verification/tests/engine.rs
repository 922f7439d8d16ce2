use pokedraft::api::{ReadyDraftUserForm, SelectPokemonRequest};
use pokedraft::engine::{
    apply_selection, check_join, create_user, create_user_with_key, seat_player, select_pokemon,
    start, toggle_ready,
};
use pokedraft::error::DraftError;
use pokedraft::rules::{DraftPhase, DraftRules, TurnType};
use pokedraft::secret::hash_uuid;
use pokedraft::session::{DraftSession, DraftSessionCreateForm, DraftState};
use pokedraft::user::{DraftUser, DraftUserForm};

fn rules(picks: u16, bans: u16, target: u16, start: DraftPhase, order: TurnType) -> DraftRules {
    DraftRules {
        picks_per_round: picks,
        bans_per_round: bans,
        max_pokemon: target,
        starting_phase: start,
        turn_type: order,
        ..Default::default()
    }
}

fn new_session(seats: u16, r: DraftRules) -> DraftSession {
    let form = DraftSessionCreateForm {
        name: "friday".to_string(),
        draft_set: "gen1".to_string(),
        draft_rules: "base".to_string(),
        min_num_players: 2,
        max_num_players: seats,
    };
    let mut session = DraftSession::from(form, r);
    session.id = Some("s1".to_string());
    session
}

fn join(session: &mut DraftSession, name: &str, id: &str) -> Result<String, DraftError> {
    let form = DraftUserForm { name: name.to_string() };
    create_user(session, form, id.to_string()).map(|answer| answer.key)
}

fn ready(session: &mut DraftSession, id: &str) -> Result<DraftState, DraftError> {
    toggle_ready(session, &ReadyDraftUserForm { user_id: id.to_string() })
}

fn act(
    session: &mut DraftSession,
    id: &str,
    action: DraftPhase,
    pokemon: u32,
    secret: &str,
) -> Result<(Vec<u32>, Vec<u32>, DraftPhase), DraftError> {
    let request = SelectPokemonRequest {
        user_id: id.to_string(),
        pokemon_id: pokemon,
        action,
        secret: secret.to_string(),
    };
    select_pokemon(session, &request).map(|r| (r.selected_pokemon, r.banned_pokemon, r.phase))
}

/// A started session of `n` players stored as u0, u1, ... with their secrets.
fn started(n: u16, r: DraftRules) -> (DraftSession, Vec<String>) {
    let mut session = new_session(n, r);
    let mut secrets = vec![];
    for i in 0..n {
        secrets.push(join(&mut session, &format!("player{i}"), &format!("u{i}")).unwrap());
    }
    for i in 0..n {
        ready(&mut session, &format!("u{i}")).unwrap();
    }
    start(&mut session);
    (session, secrets)
}

fn picture(session: &DraftSession) -> String {
    format!("{:?}", session)
}

#[test]
fn created_session_is_open_and_empty() {
    let session = new_session(4, rules(1, 1, 1, DraftPhase::Pick, TurnType::Snake));
    assert_eq!(session.name, "friday");
    assert_eq!(session.draft_set, Some("gen1".to_string()));
    assert_eq!((session.min_num_players, session.max_num_players), (2, 4));
    assert!(session.players.is_none());
    assert!(session.selected_pokemon.is_empty());
    assert!(session.current_player.is_none());
    assert_eq!(session.turn_ticker, 0);
    assert!(session.accepting_players);
    assert_eq!(session.draft_state, DraftState::Open);
    assert_eq!(session.current_phase, DraftPhase::Pick);
    assert_eq!(session.num_of_players(), 0);
    assert!(session.can_advance());
}

#[test]
fn default_session_is_closed() {
    let session = DraftSession::default();
    assert_eq!((session.min_num_players, session.max_num_players), (4, 4));
    assert!(!session.accepting_players);
    assert_eq!(session.draft_state, DraftState::Open);
    assert_eq!(session.current_phase, DraftPhase::Ban);
    assert_eq!(session.turn_ticker, 0);
    assert!(session.players.is_none() && session.id.is_none() && session.draft_set.is_none());
    assert_eq!(session.name, "");
}

#[test]
fn first_player_gets_the_first_turn() {
    let mut session = new_session(3, DraftRules::default());
    let form = DraftUserForm { name: "ann".to_string() };
    let answer = create_user(&mut session, form, "u1".to_string()).unwrap();
    assert_eq!(answer.name, "ann");
    assert_eq!(answer.session_id, "s1");
    assert_eq!(answer.user_id, "u1");
    assert!(!answer.current_turn);
    assert_eq!(answer.key.len(), 36);
    assert_eq!(session.current_player, Some("u1".to_string()));
    assert!(session.accepting_players);
    assert_eq!(session.draft_state, DraftState::Open);
    let players = session.players.as_ref().unwrap();
    assert_eq!(players.len(), 1);
    assert_eq!(players[0].id, Some("u1".to_string()));
    assert_eq!(players[0].name, "ann");
    assert_eq!(players[0].order_in_session, 0);
    assert!(!players[0].ready);
    assert!(players[0].selected_pokemon.is_empty());
    assert!(players[0].session.is_none());
}

#[test]
fn later_players_take_the_next_seats() {
    let mut session = new_session(3, DraftRules::default());
    join(&mut session, "ann", "u1").unwrap();
    join(&mut session, "bob", "u2").unwrap();
    assert!(session.accepting_players);
    assert_eq!(session.current_player, Some("u1".to_string()));
    join(&mut session, "cyd", "u3").unwrap();
    assert!(!session.accepting_players);
    assert_eq!(session.current_player, Some("u1".to_string()));
    let players = session.players.as_ref().unwrap();
    let seats: Vec<u32> = players.iter().map(|p| p.order_in_session).collect();
    assert_eq!(seats, vec![0, 1, 2]);
    assert_eq!(session.num_of_players(), 3);
}

#[test]
fn join_stores_the_hash_and_returns_the_text() {
    let mut session = new_session(2, DraftRules::default());
    let key = 0x550e8400e29b41d4a716446655440000u128;
    let form = DraftUserForm { name: "ann".to_string() };
    let answer = create_user_with_key(&mut session, form, "u1".to_string(), key).unwrap();
    assert_eq!(answer.key, "550e8400-e29b-41d4-a716-446655440000");
    let players = session.players.as_ref().unwrap();
    assert_eq!(players[0].key_hash, hash_uuid(key));
    assert!(players[0].check_key_hash(hash_uuid(key)));
    assert!(!players[0].check_key_hash(hash_uuid(key + 1)));
    assert!(!picture(&session).contains("550e8400-e29b"));
}

#[test]
fn joining_a_full_session_fails() {
    let mut session = new_session(2, DraftRules::default());
    join(&mut session, "ann", "u1").unwrap();
    join(&mut session, "bob", "u2").unwrap();
    let before = picture(&session);
    assert_eq!(join(&mut session, "cyd", "u3"), Err(DraftError::SessionFull));
    assert_eq!(join(&mut session, "ann", "u3"), Err(DraftError::SessionFull));
    assert_eq!(picture(&session), before);
}

#[test]
fn joining_a_session_without_seats_fails() {
    let mut session = new_session(0, DraftRules::default());
    assert_eq!(join(&mut session, "ann", "u1"), Err(DraftError::SessionFull));
    assert!(session.players.is_none());
}

#[test]
fn joining_a_closed_session_fails() {
    let mut session = new_session(4, DraftRules::default());
    join(&mut session, "ann", "u1").unwrap();
    session.accepting_players = false;
    let before = picture(&session);
    assert_eq!(join(&mut session, "bob", "u2"), Err(DraftError::SessionFull));
    assert_eq!(picture(&session), before);
    let mut closed = DraftSession::default();
    assert_eq!(join(&mut closed, "ann", "u1"), Err(DraftError::SessionFull));
}

#[test]
fn joining_under_a_name_in_use_fails() {
    let mut session = new_session(4, DraftRules::default());
    join(&mut session, "ann", "u1").unwrap();
    let before = picture(&session);
    assert_eq!(join(&mut session, "ann", "u2"), Err(DraftError::NameTaken));
    assert_eq!(picture(&session), before);
    session.accepting_players = false;
    assert_eq!(join(&mut session, "ann", "u2"), Err(DraftError::NameTaken));
}

#[test]
fn names_differ_by_case() {
    let mut session = new_session(4, DraftRules::default());
    join(&mut session, "ann", "u1").unwrap();
    assert!(join(&mut session, "Ann", "u2").is_ok());
    assert!(session.is_name_taken("ann"));
    assert!(session.is_name_taken("Ann"));
    assert!(!session.is_name_taken("ANN"));
    assert!(!session.is_name_taken(""));
}

#[test]
fn joining_a_started_session_fails() {
    let mut session = new_session(4, DraftRules::default());
    join(&mut session, "ann", "u1").unwrap();
    start(&mut session);
    assert_eq!(join(&mut session, "bob", "u2"), Err(DraftError::SessionFull));
    session.accepting_players = true;
    let before = picture(&session);
    assert_eq!(join(&mut session, "bob", "u2"), Err(DraftError::WrongState));
    session.draft_state = DraftState::Ended;
    assert_eq!(join(&mut session, "bob", "u2"), Err(DraftError::WrongState));
    session.draft_state = DraftState::InProgress;
    assert_eq!(picture(&session), before);
}

#[test]
fn check_join_gives_the_reason() {
    let mut session = new_session(2, DraftRules::default());
    assert_eq!(check_join(&session, "ann"), Ok(()));
    join(&mut session, "ann", "u1").unwrap();
    assert_eq!(check_join(&session, "ann"), Err(DraftError::NameTaken));
    assert_eq!(check_join(&session, "bob"), Ok(()));
    join(&mut session, "bob", "u2").unwrap();
    assert_eq!(check_join(&session, "cyd"), Err(DraftError::SessionFull));
}

#[test]
fn joining_a_ready_session_opens_it_again() {
    let mut session = new_session(3, DraftRules::default());
    join(&mut session, "ann", "u1").unwrap();
    assert_eq!(ready(&mut session, "u1"), Ok(DraftState::Ready));
    join(&mut session, "bob", "u2").unwrap();
    assert_eq!(session.draft_state, DraftState::Open);
}

#[test]
fn seat_player_fills_the_list() {
    let mut session = new_session(2, DraftRules::default());
    let mut ann = DraftUser::new("ann".to_string(), 7, 0);
    ann.id = Some("u1".to_string());
    seat_player(&mut session, ann);
    assert_eq!(session.current_player, Some("u1".to_string()));
    assert!(session.accepting_players);
    let mut bob = DraftUser::new("bob".to_string(), 8, 1);
    bob.id = Some("u2".to_string());
    seat_player(&mut session, bob);
    assert_eq!(session.current_player, Some("u1".to_string()));
    assert!(!session.accepting_players);
    assert_eq!(session.players.as_ref().unwrap().len(), 2);
}

#[test]
fn session_is_ready_when_everybody_is() {
    let mut session = new_session(3, DraftRules::default());
    join(&mut session, "ann", "u1").unwrap();
    join(&mut session, "bob", "u2").unwrap();
    assert_eq!(ready(&mut session, "u1"), Ok(DraftState::Open));
    assert_eq!(session.draft_state, DraftState::Open);
    assert_eq!(ready(&mut session, "u2"), Ok(DraftState::Ready));
    assert_eq!(session.draft_state, DraftState::Ready);
    let flags: Vec<bool> = session.players.as_ref().unwrap().iter().map(|p| p.ready).collect();
    assert_eq!(flags, vec![true, true]);
    assert_eq!(ready(&mut session, "u1"), Ok(DraftState::Open));
    assert_eq!(session.draft_state, DraftState::Open);
    let flags: Vec<bool> = session.players.as_ref().unwrap().iter().map(|p| p.ready).collect();
    assert_eq!(flags, vec![false, true]);
}

#[test]
fn readiness_of_a_stranger_fails() {
    let mut session = new_session(3, DraftRules::default());
    assert_eq!(ready(&mut session, "u1"), Err(DraftError::NotFound));
    join(&mut session, "ann", "u1").unwrap();
    let before = picture(&session);
    assert_eq!(ready(&mut session, "u9"), Err(DraftError::NotFound));
    assert_eq!(ready(&mut session, "ann"), Err(DraftError::NotFound));
    assert_eq!(picture(&session), before);
}

#[test]
fn readiness_cannot_change_after_the_start() {
    let (mut session, _) = started(2, DraftRules::default());
    let before = picture(&session);
    assert_eq!(ready(&mut session, "u0"), Err(DraftError::WrongState));
    assert_eq!(ready(&mut session, "nobody"), Err(DraftError::WrongState));
    session.draft_state = DraftState::Ended;
    assert_eq!(ready(&mut session, "u0"), Err(DraftError::WrongState));
    session.draft_state = DraftState::InProgress;
    assert_eq!(picture(&session), before);
}

#[test]
fn start_needs_no_readiness() {
    let mut session = new_session(3, DraftRules::default());
    join(&mut session, "ann", "u1").unwrap();
    assert!(session.accepting_players);
    assert!(!session.draft_has_started());
    start(&mut session);
    assert_eq!(session.draft_state, DraftState::InProgress);
    assert!(session.draft_has_started());
    assert!(!session.accepting_players);
    assert_eq!(session.turn_ticker, 0);
    assert_eq!(session.current_player, Some("u1".to_string()));
}

#[test]
fn a_turn_moves_the_session_on() {
    let (mut session, secrets) = started(2, rules(1, 1, 2, DraftPhase::Ban, TurnType::Snake));
    let (picks, pool, phase) = act(&mut session, "u0", DraftPhase::Ban, 25, &secrets[0]).unwrap();
    assert_eq!(picks, Vec::<u32>::new());
    assert_eq!(pool, vec![25]);
    assert_eq!(phase, DraftPhase::Ban);
    assert_eq!(session.turn_ticker, 1);
    assert_eq!(session.current_player, Some("u1".to_string()));
    assert_eq!(session.current_phase, DraftPhase::Ban);
    assert_eq!(session.selected_pokemon, vec![25]);
    assert_eq!(session.draft_state, DraftState::InProgress);
    assert!(session.is_pokemon_chosen(&25));
    assert!(!session.is_pokemon_chosen(&26));

    let (picks, pool, phase) = act(&mut session, "u1", DraftPhase::Ban, 4, &secrets[1]).unwrap();
    assert_eq!(picks, Vec::<u32>::new());
    assert_eq!(pool, vec![25, 4]);
    assert_eq!(phase, DraftPhase::Pick);
    assert_eq!(session.current_player, Some("u1".to_string()));

    let (picks, pool, phase) = act(&mut session, "u1", DraftPhase::Pick, 1, &secrets[1]).unwrap();
    assert_eq!(picks, vec![1]);
    assert_eq!(pool, vec![25, 4, 1]);
    assert_eq!(phase, DraftPhase::Pick);
    assert_eq!(session.turn_ticker, 3);
    assert_eq!(session.current_player, Some("u0".to_string()));
    let players = session.players.as_ref().unwrap();
    assert_eq!(players[0].selected_pokemon, Vec::<u32>::new());
    assert_eq!(players[1].selected_pokemon, vec![1]);
}

#[test]
fn a_turn_is_refused_before_the_start() {
    let mut session = new_session(2, DraftRules::default());
    let secret = join(&mut session, "ann", "u1").unwrap();
    let before = picture(&session);
    assert_eq!(act(&mut session, "u1", DraftPhase::Ban, 1, &secret), Err(DraftError::WrongState));
    assert_eq!(picture(&session), before);
    ready(&mut session, "u1").unwrap();
    assert_eq!(session.draft_state, DraftState::Ready);
    let before = picture(&session);
    assert_eq!(act(&mut session, "u1", DraftPhase::Ban, 1, &secret), Err(DraftError::WrongState));
    assert_eq!(picture(&session), before);
}

#[test]
fn a_turn_is_refused_after_the_end() {
    let (mut session, secrets) = started(1, DraftRules::default());
    session.draft_state = DraftState::Ended;
    let before = picture(&session);
    assert_eq!(
        act(&mut session, "u0", DraftPhase::Ban, 1, &secrets[0]),
        Err(DraftError::WrongState)
    );
    assert_eq!(picture(&session), before);
}

#[test]
fn a_creature_leaves_the_pool_once() {
    let (mut session, secrets) = started(2, DraftRules::default());
    act(&mut session, "u0", DraftPhase::Ban, 25, &secrets[0]).unwrap();
    let before = picture(&session);
    assert_eq!(
        act(&mut session, "u1", DraftPhase::Ban, 25, &secrets[1]),
        Err(DraftError::ItemUnavailable)
    );
    assert_eq!(picture(&session), before);
    act(&mut session, "u1", DraftPhase::Ban, 26, &secrets[1]).unwrap();
    // a banned creature cannot be picked, a picked one cannot be picked again
    assert_eq!(
        act(&mut session, "u1", DraftPhase::Pick, 26, &secrets[1]),
        Err(DraftError::ItemUnavailable)
    );
    act(&mut session, "u1", DraftPhase::Pick, 1, &secrets[1]).unwrap();
    assert_eq!(
        act(&mut session, "u0", DraftPhase::Pick, 1, &secrets[0]),
        Err(DraftError::ItemUnavailable)
    );
}

#[test]
fn the_action_must_be_the_one_asked_for() {
    let (mut session, secrets) = started(2, DraftRules::default());
    let before = picture(&session);
    assert_eq!(
        act(&mut session, "u0", DraftPhase::Pick, 1, &secrets[0]),
        Err(DraftError::WrongPhase)
    );
    assert_eq!(picture(&session), before);
}

#[test]
fn only_the_player_in_turn_may_act() {
    let (mut session, secrets) = started(2, DraftRules::default());
    let before = picture(&session);
    assert_eq!(
        act(&mut session, "u1", DraftPhase::Ban, 1, &secrets[1]),
        Err(DraftError::NotYourTurn)
    );
    assert_eq!(
        act(&mut session, "stranger", DraftPhase::Ban, 1, &secrets[1]),
        Err(DraftError::NotYourTurn)
    );
    assert_eq!(picture(&session), before);
}

#[test]
fn the_secret_must_be_the_players() {
    let (mut session, secrets) = started(2, DraftRules::default());
    let before = picture(&session);
    assert_eq!(
        act(&mut session, "u0", DraftPhase::Ban, 1, &secrets[1]),
        Err(DraftError::AccessDenied)
    );
    assert_eq!(
        act(&mut session, "u0", DraftPhase::Ban, 1, "no key at all"),
        Err(DraftError::AccessDenied)
    );
    assert_eq!(act(&mut session, "u0", DraftPhase::Ban, 1, ""), Err(DraftError::AccessDenied));
    assert_eq!(picture(&session), before);
    assert!(act(&mut session, "u0", DraftPhase::Ban, 1, &secrets[0].to_uppercase()).is_ok());
}

#[test]
fn a_player_outside_the_list_is_not_found() {
    let (mut session, secrets) = started(2, DraftRules::default());
    session.current_player = Some("ghost".to_string());
    let before = picture(&session);
    assert_eq!(
        act(&mut session, "ghost", DraftPhase::Ban, 1, &secrets[0]),
        Err(DraftError::NotFound)
    );
    assert_eq!(picture(&session), before);
    session.players = None;
    assert_eq!(
        act(&mut session, "ghost", DraftPhase::Ban, 1, &secrets[0]),
        Err(DraftError::NotFound)
    );
}

#[test]
fn refusals_come_in_a_fixed_order() {
    let (mut session, secrets) = started(2, DraftRules::default());
    act(&mut session, "u0", DraftPhase::Ban, 25, &secrets[0]).unwrap();
    // everything is wrong at once: the state decides
    session.draft_state = DraftState::Open;
    assert_eq!(act(&mut session, "u0", DraftPhase::Pick, 25, "x"), Err(DraftError::WrongState));
    session.draft_state = DraftState::InProgress;
    assert_eq!(
        act(&mut session, "u0", DraftPhase::Pick, 25, "x"),
        Err(DraftError::ItemUnavailable)
    );
    assert_eq!(act(&mut session, "u0", DraftPhase::Pick, 26, "x"), Err(DraftError::WrongPhase));
    assert_eq!(act(&mut session, "u0", DraftPhase::Ban, 26, "x"), Err(DraftError::NotYourTurn));
    assert_eq!(act(&mut session, "u1", DraftPhase::Ban, 26, "x"), Err(DraftError::AccessDenied));
}

#[test]
fn apply_selection_takes_the_hash() {
    let (mut session, _) = started(1, DraftRules::default());
    let stored = session.players.as_ref().unwrap()[0].key_hash;
    let before = picture(&session);
    assert_eq!(
        apply_selection(&mut session, "u0", DraftPhase::Ban, 1, None).err(),
        Some(DraftError::AccessDenied)
    );
    assert_eq!(
        apply_selection(&mut session, "u0", DraftPhase::Ban, 1, Some(stored.wrapping_add(1))).err(),
        Some(DraftError::AccessDenied)
    );
    assert_eq!(picture(&session), before);
    let response = apply_selection(&mut session, "u0", DraftPhase::Ban, 1, Some(stored)).unwrap();
    assert_eq!(response.banned_pokemon, vec![1]);
    assert_eq!(response.selected_pokemon, Vec::<u32>::new());
    assert_eq!(response.phase, DraftPhase::Pick);
}

#[test]
fn four_players_snake_draft_runs_to_its_end() {
    let r = rules(1, 1, 1, DraftPhase::Ban, TurnType::Snake);
    let (mut session, secrets) = started(4, r);
    let order = [0usize, 1, 2, 3, 3, 2, 1, 0];
    for (turn, seat) in order.iter().enumerate() {
        assert_eq!(session.turn_ticker, turn as u32);
        assert_eq!(session.draft_state, DraftState::InProgress);
        assert_eq!(session.current_player, Some(format!("u{seat}")));
        assert_eq!(session.get_current_player_name(), Some(format!("player{seat}")));
        let action = if turn < 4 { DraftPhase::Ban } else { DraftPhase::Pick };
        assert_eq!(session.current_phase, action);
        act(&mut session, &format!("u{seat}"), action, 100 + turn as u32, &secrets[*seat]).unwrap();
    }
    assert_eq!(session.turn_ticker, 8);
    assert_eq!(session.calculate_pk_num_floor(), 1);
    assert_eq!(session.draft_state, DraftState::Ended);
    assert_eq!(session.selected_pokemon, vec![100, 101, 102, 103, 104, 105, 106, 107]);
    let picks: Vec<Vec<u32>> =
        session.players.as_ref().unwrap().iter().map(|p| p.selected_pokemon.clone()).collect();
    assert_eq!(picks, vec![vec![107], vec![106], vec![105], vec![104]]);
    let before = picture(&session);
    assert_eq!(
        act(&mut session, "u0", DraftPhase::Ban, 200, &secrets[0]),
        Err(DraftError::WrongState)
    );
    assert_eq!(picture(&session), before);
}

#[test]
fn round_robin_draft_from_pick() {
    let r = rules(1, 1, 2, DraftPhase::Pick, TurnType::RoundRobin);
    let (mut session, secrets) = started(2, r);
    // rounds: pick, ban, pick; the count reaches 2 with the last pick of round 2
    let turns = [
        (0usize, DraftPhase::Pick),
        (1, DraftPhase::Pick),
        (0, DraftPhase::Ban),
        (1, DraftPhase::Ban),
        (0, DraftPhase::Pick),
        (1, DraftPhase::Pick),
    ];
    for (turn, (seat, action)) in turns.iter().enumerate() {
        assert_eq!(session.draft_state, DraftState::InProgress);
        assert!(session.is_current_player(&format!("u{seat}")));
        act(&mut session, &format!("u{seat}"), *action, turn as u32, &secrets[*seat]).unwrap();
    }
    assert_eq!(session.draft_state, DraftState::Ended);
    assert_eq!(session.turn_ticker, 6);
    let picks: Vec<usize> =
        session.players.as_ref().unwrap().iter().map(|p| p.selected_pokemon.len()).collect();
    assert_eq!(picks, vec![2, 2]);
}

#[test]
fn next_player_and_phase_of_a_session() {
    let (mut session, _) = started(3, rules(1, 1, 1, DraftPhase::Ban, TurnType::Snake));
    assert_eq!(session.get_next_player_id(), (1, Some("u1".to_string())));
    assert_eq!(session.get_next_phase(), DraftPhase::Ban);
    assert!(!session.check_if_session_is_over());
    session.turn_ticker = 2;
    assert_eq!(session.get_next_player_id(), (3, Some("u2".to_string())));
    assert_eq!(session.get_next_phase(), DraftPhase::Pick);
    session.turn_ticker = 5;
    assert_eq!(session.get_next_player_id(), (6, Some("u0".to_string())));
    assert!(session.check_if_session_is_over());
    assert_eq!(session.calculate_pk_num_floor(), 1);
    session.players = None;
    assert_eq!(session.get_next_player_id(), (5, None));
}

#[test]
fn slots_are_available_while_open_and_not_full() {
    let mut session = new_session(2, DraftRules::default());
    assert!(!session.slots_available());
    join(&mut session, "ann", "u1").unwrap();
    assert!(session.slots_available());
    join(&mut session, "bob", "u2").unwrap();
    assert!(!session.slots_available());
    let mut open = new_session(2, DraftRules::default());
    join(&mut open, "ann", "u1").unwrap();
    open.accepting_players = false;
    assert!(!open.slots_available());
}

#[test]
fn a_session_can_advance_with_rules_and_room_to_count() {
    let mut session = new_session(2, DraftRules::default());
    assert!(session.can_advance());
    session.turn_ticker = u32::MAX;
    assert!(!session.can_advance());
    session.turn_ticker = 0;
    session.draft_rules = rules(0, 0, 1, DraftPhase::Ban, TurnType::Snake);
    assert!(!session.can_advance());
    session.draft_rules = DraftRules::default();
    session.players = Some(vec![DraftUser::default(), DraftUser::default(), DraftUser::default()]);
    assert!(session.can_advance());
}

#[test]
fn current_player_is_compared_by_id() {
    let mut session = new_session(2, DraftRules::default());
    assert!(!session.is_current_player("u1"));
    assert_eq!(session.get_current_player_name(), None);
    join(&mut session, "ann", "u1").unwrap();
    assert!(session.is_current_player("u1"));
    assert!(!session.is_current_player("U1"));
    assert!(!session.is_current_player("ann"));
    assert_eq!(session.get_current_player_name(), Some("ann".to_string()));
}

/// Plays a draft to its end: whoever is in turn takes the action asked for on
/// the next creature.
fn play_out(players: u16, r: DraftRules) -> DraftSession {
    let (mut session, secrets) = started(players, r);
    let mut creature = 0;
    while session.draft_state == DraftState::InProgress {
        assert!(session.turn_ticker < 10_000);
        let id = session.current_player.clone().unwrap();
        let seat: usize = id[1..].parse().unwrap();
        let action = session.current_phase;
        let taken = session.turn_ticker;
        act(&mut session, &id, action, creature, &secrets[seat]).unwrap();
        assert_eq!(session.turn_ticker, taken + 1);
        creature += 1;
    }
    session
}

#[test]
fn ended_drafts_have_full_rosters() {
    for start in [DraftPhase::Ban, DraftPhase::Pick] {
        for order in [TurnType::RoundRobin, TurnType::Snake] {
            for (picks, bans, target) in [(1u16, 1u16, 3u16), (1, 2, 2), (2, 2, 4), (2, 3, 5)] {
                for players in 1..5u16 {
                    let session = play_out(players, rules(picks, bans, target, start, order));
                    assert_eq!(session.draft_state, DraftState::Ended);
                    for player in session.players.as_ref().unwrap() {
                        assert!(player.selected_pokemon.len() >= target as usize);
                    }
                }
            }
        }
    }
}

#[test]
fn with_one_round_of_each_the_draft_ends_as_the_last_roster_fills() {
    for start in [DraftPhase::Ban, DraftPhase::Pick] {
        for order in [TurnType::RoundRobin, TurnType::Snake] {
            for players in 1..5u16 {
                let session = play_out(players, rules(1, 1, 3, start, order));
                let rosters: Vec<usize> = session
                    .players
                    .as_ref()
                    .unwrap()
                    .iter()
                    .map(|p| p.selected_pokemon.len())
                    .collect();
                assert_eq!(rosters, vec![3; players as usize]);
            }
        }
    }
}

#[test]
fn no_creature_leaves_the_pool_twice_and_picks_stay_apart() {
    let session = play_out(3, rules(2, 2, 4, DraftPhase::Pick, TurnType::Snake));
    let mut pool = session.selected_pokemon.clone();
    pool.sort();
    pool.dedup();
    assert_eq!(pool.len(), session.selected_pokemon.len());
    assert_eq!(pool.len() as u32, session.turn_ticker);
    let mut picked: Vec<u32> = vec![];
    for player in session.players.as_ref().unwrap() {
        for creature in &player.selected_pokemon {
            assert!(session.selected_pokemon.contains(creature));
            assert!(!picked.contains(creature));
            picked.push(*creature);
        }
    }
}
