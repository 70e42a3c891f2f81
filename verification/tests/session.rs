use phi::deck::DeckType;
use phi::game::GameError;
use phi::messages::{ClientCmd, Dispatch, ServerCmd, ServerPush};
use phi::player::{RANDOM_ID_MASK, RANDOM_ID_TAG};
use phi::session::{Outcome, PlaySession};
use phi::snapshot::{PlayerSnapshot, Snapshot};

const SECRET: &str = "s3cret";
const HOUR: u64 = 3_600_000;

fn session() -> PlaySession {
    PlaySession::new(String::from(SECRET), DeckType::Fibonacci, HOUR)
}

fn register(session: &mut PlaySession, name: &str, now: u64) -> u128 {
    let outcome = session.handle(ServerCmd::RegisterPlayer(String::from(name)), now);
    match outcome.reply {
        Some(ServerPush::PlayerRegistered { player_id }) => player_id,
        other => panic!("unexpected reply {:?}", other),
    }
}

fn fwd(session: &mut PlaySession, player: u128, cmd: ClientCmd, now: u64) -> Outcome {
    session.handle(ServerCmd::Fwd(player, cmd), now)
}

fn state_change(outcome: &Outcome) -> (&Snapshot, Vec<u64>) {
    match &outcome.push {
        Some(Dispatch { recipients, push: ServerPush::StateChange { new_state } }) => {
            let mut to = recipients.clone();
            to.sort();
            (new_state, to)
        }
        other => panic!("expected a state change, got {:?}", other),
    }
}

fn player_in<'a>(picture: &'a Snapshot, id: u128) -> &'a PlayerSnapshot {
    match picture.find(id) {
        Some(p) => p,
        None => panic!("player {} is not shown", id),
    }
}

fn silent(outcome: &Outcome) -> bool {
    outcome.push.is_none() && outcome.reply.is_none()
}

#[test]
fn new_session_is_empty() {
    let session = session();
    assert!(!session.is_calling());
    assert_eq!(session.deck(), DeckType::Fibonacci);
    assert_eq!(session.cards().len(), 12);
    assert_eq!(session.cards()[4], "5");
    let picture = session.game_state(0);
    assert!(picture.players.is_empty());
    assert!(!picture.is_calling);
    assert!(session.notify_subscribers(0).recipients.is_empty());
    let days = PlaySession::new(String::new(), DeckType::Days, 0);
    assert_eq!(days.cards().to_vec(), vec!["0.5", "1", "1.5", "2", "3", "5", "∞", "?", "☕"]);
}

#[test]
fn register_replies_with_the_id_and_broadcasts() {
    let mut session = session();
    session.handle(ServerCmd::AddConnection(1, 77), 0);
    let outcome = session.handle(ServerCmd::RegisterPlayer(String::from("Alice")), 10);
    let id = match outcome.reply {
        Some(ServerPush::PlayerRegistered { player_id }) => player_id,
        ref other => panic!("unexpected reply {:?}", other),
    };
    assert_eq!(id & RANDOM_ID_MASK, RANDOM_ID_TAG);
    assert_eq!(outcome.refusal, None);
    let (picture, to) = state_change(&outcome);
    assert_eq!(to, vec![1]);
    assert_eq!(picture.players.len(), 2);
    let alice = player_in(picture, id);
    assert_eq!(alice.name, "Alice");
    assert_eq!(alice.selected_card, None);
    assert!(!alice.idle);
    assert_eq!(player_in(picture, 77).name, "Guest");
}

#[test]
fn register_with_a_given_id() {
    let mut session = session();
    let outcome = session.handle_with_id(ServerCmd::RegisterPlayer(String::from("Alice")), 5, 42);
    assert!(matches!(outcome.reply, Some(ServerPush::PlayerRegistered { player_id: 42 })));
    let (picture, to) = state_change(&outcome);
    assert!(to.is_empty());
    assert_eq!(player_in(picture, 42).name, "Alice");
    // The same registration again shows nothing new: no push, but still a reply.
    let again = session.handle_with_id(ServerCmd::RegisterPlayer(String::from("Alice")), 6, 42);
    assert!(matches!(again.reply, Some(ServerPush::PlayerRegistered { player_id: 42 })));
    assert!(again.push.is_none());
    // The id is looked at by no other command.
    let other = session.handle_with_id(ServerCmd::Fwd(42, ClientCmd::Call), 7, 99);
    assert!(other.reply.is_none());
    assert!(session.player(99, 7).is_none());
}

#[test]
fn two_registrations_get_two_ids() {
    let mut session = session();
    let a = register(&mut session, "Alice", 0);
    let b = register(&mut session, "Bob", 0);
    assert_ne!(a, b);
    assert_eq!(session.game_state(0).players.len(), 2);
}

#[test]
fn toggle_law_on_a_session() {
    let mut session = session();
    let alice = register(&mut session, "Alice", 0);
    let outcome = fwd(&mut session, alice, ClientCmd::SetPlayerCard(Some(3)), 1);
    assert_eq!(player_in(state_change(&outcome).0, alice).selected_card, Some(3));
    let outcome = fwd(&mut session, alice, ClientCmd::SetPlayerCard(Some(3)), 2);
    assert_eq!(player_in(state_change(&outcome).0, alice).selected_card, None);
    let outcome = fwd(&mut session, alice, ClientCmd::SetPlayerCard(Some(5)), 3);
    assert_eq!(player_in(state_change(&outcome).0, alice).selected_card, Some(5));
    let outcome = fwd(&mut session, alice, ClientCmd::SetPlayerCard(Some(8)), 4);
    assert_eq!(player_in(state_change(&outcome).0, alice).selected_card, Some(8));
    let outcome = fwd(&mut session, alice, ClientCmd::SetPlayerCard(None), 5);
    assert_eq!(player_in(state_change(&outcome).0, alice).selected_card, None);
    let outcome = fwd(&mut session, alice, ClientCmd::SetPlayerCard(None), 6);
    assert!(silent(&outcome));
    assert_eq!(outcome.refusal, None);
}

#[test]
fn commands_for_unknown_players_change_nothing() {
    let mut session = session();
    let alice = register(&mut session, "Alice", 0);
    session.handle(ServerCmd::AddConnection(1, alice), 0);
    fwd(&mut session, alice, ClientCmd::SetPlayerCard(Some(2)), 0);
    let before = session.game_state(10);
    let ghost = 4711;

    let outcome = fwd(&mut session, ghost, ClientCmd::SetPlayerName(String::from("Boo")), 10);
    assert!(silent(&outcome));
    assert_eq!(outcome.refusal, Some(GameError::UnknownPlayer));
    let outcome = fwd(&mut session, ghost, ClientCmd::SetPlayerCard(Some(1)), 10);
    assert!(silent(&outcome));
    assert_eq!(outcome.refusal, Some(GameError::UnknownPlayer));
    let outcome = fwd(&mut session, ghost, ClientCmd::RemovePlayer, 10);
    assert!(silent(&outcome));
    assert_eq!(outcome.refusal, None);
    let outcome = fwd(&mut session, ghost, ClientCmd::Heartbeat, 10);
    assert!(silent(&outcome));
    assert_eq!(outcome.refusal, Some(GameError::UnknownPlayer));

    assert!(session.game_state(10).same_as(&before));
    assert!(session.player(ghost, 10).is_none());
    assert_eq!(session.owner(1), Some(alice));
}

#[test]
fn heartbeat_of_unknown_player_still_evicts() {
    let mut session = PlaySession::new(String::from(SECRET), DeckType::Fibonacci, 1_000);
    let alice = register(&mut session, "Alice", 0);
    let outcome = fwd(&mut session, 4711, ClientCmd::Heartbeat, 1_000);
    assert_eq!(outcome.refusal, Some(GameError::UnknownPlayer));
    let (picture, _) = state_change(&outcome);
    assert!(picture.players.is_empty());
    assert!(session.player(alice, 1_000).is_none());
}

#[test]
fn nothing_is_pushed_without_a_change() {
    let mut session = session();
    let alice = register(&mut session, "Alice", 0);
    session.handle(ServerCmd::AddConnection(1, alice), 0);
    // Resume when not calling.
    assert!(silent(&fwd(&mut session, alice, ClientCmd::Resume, 1)));
    // Reset when nothing is selected.
    assert!(silent(&fwd(&mut session, alice, ClientCmd::Reset, 1)));
    // The same name again.
    assert!(silent(&fwd(&mut session, alice, ClientCmd::SetPlayerName(String::from("Alice")), 1)));
    // A heartbeat that evicts nobody.
    assert!(silent(&fwd(&mut session, alice, ClientCmd::Heartbeat, 1)));
    // A second connection of a known player.
    assert!(silent(&session.handle(ServerCmd::AddConnection(2, alice), 1)));
    // Closing one of two connections.
    assert!(silent(&session.handle(ServerCmd::RemoveConnection(2), 1)));
    // Closing a connection that was never there.
    assert!(silent(&session.handle(ServerCmd::RemoveConnection(99), 1)));
    // Call twice.
    let first = fwd(&mut session, alice, ClientCmd::Call, 2);
    assert!(state_change(&first).0.is_calling);
    assert!(silent(&fwd(&mut session, alice, ClientCmd::Call, 3)));
}

#[test]
fn rename_is_broadcast() {
    let mut session = session();
    let alice = register(&mut session, "Alice", 0);
    session.handle(ServerCmd::AddConnection(1, alice), 0);
    session.handle(ServerCmd::AddConnection(2, 500), 0);
    let outcome = fwd(&mut session, alice, ClientCmd::SetPlayerName(String::from("Alicia")), 1);
    let (picture, to) = state_change(&outcome);
    assert_eq!(to, vec![1, 2]);
    assert_eq!(player_in(picture, alice).name, "Alicia");
    assert_eq!(player_in(picture, 500).name, "Guest");
    assert_eq!(session.player_name(alice), Some(String::from("Alicia")));
    assert_eq!(session.player_name(12345), None);
}

#[test]
fn first_connection_registers_a_guest() {
    let mut session = session();
    let outcome = session.handle(ServerCmd::AddConnection(1, 500), 20);
    assert!(outcome.reply.is_none());
    let (picture, to) = state_change(&outcome);
    assert_eq!(to, vec![1]);
    let guest = player_in(picture, 500);
    assert_eq!(guest.name, "Guest");
    assert_eq!(guest.selected_card, None);
    assert_eq!(session.owner(1), Some(500));
}

#[test]
fn a_connection_of_a_known_player_keeps_the_player() {
    let mut session = session();
    let alice = register(&mut session, "Alice", 0);
    fwd(&mut session, alice, ClientCmd::SetPlayerCard(Some(3)), 0);
    let outcome = session.handle(ServerCmd::AddConnection(1, alice), 20);
    assert!(silent(&outcome));
    let shown = session.player(alice, 20).unwrap();
    assert_eq!(shown.name, "Alice");
    assert_eq!(shown.selected_card, Some(3));
}

#[test]
fn player_stays_while_a_connection_is_left() {
    let mut session = session();
    session.handle(ServerCmd::AddConnection(1, 500), 0);
    session.handle(ServerCmd::AddConnection(2, 500), 0);
    session.handle(ServerCmd::AddConnection(3, 600), 0);
    let outcome = session.handle(ServerCmd::RemoveConnection(1), 1);
    assert!(silent(&outcome));
    assert!(session.player(500, 1).is_some());
    // The last connection of 500 closes: the player is gone from the next snapshot.
    let outcome = session.handle(ServerCmd::RemoveConnection(2), 2);
    let (picture, to) = state_change(&outcome);
    assert_eq!(to, vec![3]);
    assert!(picture.find(500).is_none());
    assert!(picture.find(600).is_some());
    assert_eq!(picture.players.len(), 1);
    assert!(session.player(500, 2).is_none());
    assert_eq!(session.owner(2), None);
}

#[test]
fn idle_players_are_evicted_on_heartbeat() {
    let mut session = PlaySession::new(String::from(SECRET), DeckType::Fibonacci, 1_000);
    let alice = register(&mut session, "Alice", 0);
    let bob = register(&mut session, "Bob", 0);
    session.handle(ServerCmd::AddConnection(1, bob), 0);
    // Both 999 old: nobody goes.
    assert!(silent(&fwd(&mut session, bob, ClientCmd::Heartbeat, 999)));
    // Alice is 1000 old, Bob was heard from at 999 and is refreshed now.
    let outcome = fwd(&mut session, bob, ClientCmd::Heartbeat, 1_000);
    assert_eq!(outcome.refusal, None);
    assert!(outcome.reply.is_none());
    let (picture, to) = state_change(&outcome);
    assert_eq!(to, vec![1]);
    assert_eq!(picture.players.len(), 1);
    assert!(picture.find(alice).is_none());
    assert!(picture.find(bob).is_some());
    // Nothing more to evict.
    assert!(silent(&fwd(&mut session, bob, ClientCmd::Heartbeat, 1_001)));
}

#[test]
fn a_heartbeat_saves_its_sender() {
    let mut session = PlaySession::new(String::from(SECRET), DeckType::Fibonacci, 1_000);
    let alice = register(&mut session, "Alice", 0);
    assert!(silent(&fwd(&mut session, alice, ClientCmd::Heartbeat, 5_000)));
    assert!(session.player(alice, 5_000).is_some());
    // Without any patience even the sender goes.
    let mut strict = PlaySession::new(String::from(SECRET), DeckType::Fibonacci, 0);
    let bob = register(&mut strict, "Bob", 0);
    let outcome = fwd(&mut strict, bob, ClientCmd::Heartbeat, 0);
    assert!(state_change(&outcome).0.players.is_empty());
}

#[test]
fn idle_players_are_marked_in_snapshots() {
    let mut session = session();
    let alice = register(&mut session, "Alice", 0);
    assert!(!session.player(alice, 30_000).unwrap().idle);
    assert!(session.player(alice, 30_001).unwrap().idle);
    fwd(&mut session, alice, ClientCmd::Heartbeat, 30_001);
    assert!(!session.player(alice, 30_001).unwrap().idle);
    assert!(!player_in(&session.game_state(60_001), alice).idle);
    assert!(player_in(&session.game_state(60_002), alice).idle);
}

#[test]
fn admin_confirmation_goes_to_the_challenger_only() {
    let mut session = session();
    session.handle(ServerCmd::AddConnection(1, 500), 0);
    session.handle(ServerCmd::AddConnection(2, 600), 0);
    session.handle(ServerCmd::AddConnection(3, 500), 0);
    let before = session.game_state(1);
    let outcome = fwd(&mut session, 500, ClientCmd::AdminChallenge(String::from(SECRET)), 1);
    assert_eq!(outcome.refusal, None);
    assert!(outcome.reply.is_none());
    match outcome.push {
        Some(Dispatch { mut recipients, push: ServerPush::IsAdminUser }) => {
            recipients.sort();
            assert_eq!(recipients, vec![1, 3]);
        }
        other => panic!("expected a confirmation, got {:?}", other),
    }
    assert!(session.game_state(1).same_as(&before));
}

#[test]
fn wrong_admin_key_is_met_with_silence() {
    let mut session = session();
    session.handle(ServerCmd::AddConnection(1, 500), 0);
    for key in ["", "s3cre", "s3cret ", "S3CRET", "s3cret0"] {
        let outcome = fwd(&mut session, 500, ClientCmd::AdminChallenge(String::from(key)), 1);
        assert!(silent(&outcome));
        assert_eq!(outcome.refusal, Some(GameError::InvalidAdminKey));
    }
    assert!(session.admin_challenge(SECRET));
    assert!(!session.admin_challenge("s3cre"));
    assert!(!session.admin_challenge(""));
}

#[test]
fn admin_without_connections_gets_an_empty_dispatch() {
    let mut session = session();
    let outcome = fwd(&mut session, 500, ClientCmd::AdminChallenge(String::from(SECRET)), 1);
    match outcome.push {
        Some(Dispatch { recipients, push: ServerPush::IsAdminUser }) => {
            assert!(recipients.is_empty())
        }
        other => panic!("expected a confirmation, got {:?}", other),
    }
}

#[test]
fn reset_clears_every_selection() {
    let mut session = session();
    let alice = register(&mut session, "Alice", 0);
    let bob = register(&mut session, "Bob", 0);
    let carol = register(&mut session, "Carol", 0);
    fwd(&mut session, alice, ClientCmd::SetPlayerCard(Some(1)), 1);
    fwd(&mut session, bob, ClientCmd::SetPlayerCard(Some(11)), 1);
    fwd(&mut session, carol, ClientCmd::Call, 1);
    let outcome = fwd(&mut session, carol, ClientCmd::Reset, 2);
    let (picture, _) = state_change(&outcome);
    assert!(!picture.is_calling);
    assert_eq!(picture.players.len(), 3);
    for p in &picture.players {
        assert_eq!(p.selected_card, None);
    }
    assert!(!session.is_calling());
}

#[test]
fn selections_are_locked_during_a_call() {
    let mut session = session();
    let alice = register(&mut session, "Alice", 0);
    fwd(&mut session, alice, ClientCmd::SetPlayerCard(Some(1)), 1);
    fwd(&mut session, alice, ClientCmd::Call, 1);
    let outcome = fwd(&mut session, alice, ClientCmd::SetPlayerCard(Some(2)), 2);
    assert!(silent(&outcome));
    assert_eq!(outcome.refusal, Some(GameError::SelectionsLocked));
    assert_eq!(session.player(alice, 2).unwrap().selected_card, Some(1));
    fwd(&mut session, alice, ClientCmd::Resume, 3);
    let outcome = fwd(&mut session, alice, ClientCmd::SetPlayerCard(Some(2)), 4);
    assert_eq!(outcome.refusal, None);
    assert_eq!(session.player(alice, 4).unwrap().selected_card, Some(2));
}

#[test]
fn card_outside_the_deck_is_dropped() {
    let mut session = PlaySession::new(String::from(SECRET), DeckType::Days, HOUR);
    let alice = register(&mut session, "Alice", 0);
    let outcome = fwd(&mut session, alice, ClientCmd::SetPlayerCard(Some(9)), 1);
    assert!(silent(&outcome));
    assert_eq!(outcome.refusal, Some(GameError::InvalidCard));
    assert_eq!(session.player(alice, 1).unwrap().selected_card, None);
}

#[test]
fn remove_player_is_broadcast_once() {
    let mut session = session();
    let alice = register(&mut session, "Alice", 0);
    session.handle(ServerCmd::AddConnection(1, alice), 0);
    let outcome = fwd(&mut session, alice, ClientCmd::RemovePlayer, 1);
    let (picture, to) = state_change(&outcome);
    assert!(picture.players.is_empty());
    // The connection itself stays until its transport closes it.
    assert_eq!(to, vec![1]);
    assert_eq!(session.owner(1), Some(alice));
    assert!(silent(&fwd(&mut session, alice, ClientCmd::RemovePlayer, 2)));
}

#[test]
fn subscriptions_start_with_the_current_state() {
    let mut session = session();
    let alice = register(&mut session, "Alice", 0);
    fwd(&mut session, alice, ClientCmd::SetPlayerCard(Some(4)), 0);
    fwd(&mut session, alice, ClientCmd::Call, 0);
    match session.subscribe(5) {
        ServerPush::StateChange { new_state } => {
            assert!(new_state.is_calling);
            assert_eq!(new_state.players.len(), 1);
            assert_eq!(player_in(&new_state, alice).selected_card, Some(4));
        }
        other => panic!("unexpected seed {:?}", other),
    }
    session.handle(ServerCmd::AddConnection(8, alice), 0);
    session.handle(ServerCmd::AddConnection(9, alice), 0);
    let dispatch = session.notify_subscribers(5);
    let mut to = dispatch.recipients.clone();
    to.sort();
    assert_eq!(to, vec![8, 9]);
    assert!(matches!(dispatch.push, ServerPush::StateChange { .. }));
}

#[test]
fn end_to_end_round() {
    let mut session = session();
    let a = register(&mut session, "A", 0);
    let b = register(&mut session, "B", 0);
    session.handle(ServerCmd::AddConnection(1, a), 0);
    session.handle(ServerCmd::AddConnection(2, b), 0);

    let first = fwd(&mut session, a, ClientCmd::SetPlayerCard(Some(3)), 1);
    let (picture, to) = state_change(&first);
    assert_eq!(to, vec![1, 2]);
    assert_eq!(player_in(picture, a).selected_card, Some(3));
    assert_eq!(player_in(picture, b).selected_card, None);
    assert!(!picture.is_calling);

    let second = fwd(&mut session, b, ClientCmd::SetPlayerCard(Some(3)), 2);
    let (picture, to) = state_change(&second);
    assert_eq!(to, vec![1, 2]);
    assert_eq!(player_in(picture, a).selected_card, Some(3));
    assert_eq!(player_in(picture, b).selected_card, Some(3));

    let call = fwd(&mut session, a, ClientCmd::Call, 3);
    let (picture, to) = state_change(&call);
    assert_eq!(to, vec![1, 2]);
    assert!(picture.is_calling);
    assert_eq!(player_in(picture, a).selected_card, Some(3));
    assert_eq!(player_in(picture, b).selected_card, Some(3));
    assert!(session.is_calling());

    let reset = fwd(&mut session, a, ClientCmd::Reset, 4);
    let (picture, to) = state_change(&reset);
    assert_eq!(to, vec![1, 2]);
    assert!(!picture.is_calling);
    assert_eq!(picture.players.len(), 2);
    assert_eq!(player_in(picture, a).selected_card, None);
    assert_eq!(player_in(picture, b).selected_card, None);
    assert!(!session.is_calling());
}
