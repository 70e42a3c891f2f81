use phi::deck::{DeckType, DAYS_DECK, FIB_DECK};
use phi::player::{Player, PLAYER_IDLE_THRESHOLD, RANDOM_ID_MASK, RANDOM_ID_TAG};

#[test]
fn deck_names_are_read() {
    assert_eq!(DeckType::from_str("fib"), Ok(DeckType::Fibonacci));
    assert_eq!(DeckType::from_str(""), Ok(DeckType::Fibonacci));
    assert_eq!(DeckType::from_str("days"), Ok(DeckType::Days));
}

#[test]
fn unknown_deck_name_is_rejected_with_its_name() {
    assert_eq!(
        DeckType::from_str("weeks"),
        Err(String::from("Invalid deck type: `weeks`. Use `fib` or `days`."))
    );
    assert_eq!(
        DeckType::from_str("Fib"),
        Err(String::from("Invalid deck type: `Fib`. Use `fib` or `days`."))
    );
    assert_eq!(
        DeckType::from_str(" days"),
        Err(String::from("Invalid deck type: ` days`. Use `fib` or `days`."))
    );
}

#[test]
fn deck_names_parse_through_the_trait() {
    assert_eq!("days".parse::<DeckType>(), Ok(DeckType::Days));
    assert_eq!("fib".parse::<DeckType>(), Ok(DeckType::Fibonacci));
    assert_eq!("".parse::<DeckType>(), Ok(DeckType::Fibonacci));
    assert_eq!(
        "fibonacci".parse::<DeckType>(),
        Err(String::from("Invalid deck type: `fibonacci`. Use `fib` or `days`."))
    );
}

#[test]
fn fibonacci_deck_has_its_twelve_labels() {
    let deck = DeckType::Fibonacci;
    assert_eq!(deck.len(), 12);
    assert_eq!(
        deck.cards().to_vec(),
        vec!["0", "1", "2", "3", "5", "8", "13", "21", "100", "∞", "?", "☕"]
    );
    assert_eq!(deck.cards(), &FIB_DECK[..]);
}

#[test]
fn days_deck_has_its_nine_labels() {
    let deck = DeckType::Days;
    assert_eq!(deck.len(), 9);
    assert_eq!(
        deck.cards().to_vec(),
        vec!["0.5", "1", "1.5", "2", "3", "5", "∞", "?", "☕"]
    );
    assert_eq!(deck.cards(), &DAYS_DECK[..]);
}

#[test]
fn labels_are_looked_up_by_index() {
    assert_eq!(DeckType::Fibonacci.label(0), Some("0"));
    assert_eq!(DeckType::Fibonacci.label(3), Some("3"));
    assert_eq!(DeckType::Fibonacci.label(4), Some("5"));
    assert_eq!(DeckType::Fibonacci.label(11), Some("☕"));
    assert_eq!(DeckType::Fibonacci.label(12), None);
    assert_eq!(DeckType::Days.label(0), Some("0.5"));
    assert_eq!(DeckType::Days.label(8), Some("☕"));
    assert_eq!(DeckType::Days.label(9), None);
    assert_eq!(DeckType::Days.label(usize::MAX), None);
}

#[test]
fn new_player_has_no_selection() {
    let player = Player::new(String::from("Alice"), 42);
    assert_eq!(player.name, "Alice");
    assert_eq!(player.selected_card, None);
    assert_eq!(player.last_heartbeat, 42);
    assert_eq!(player.selected_card_name(DeckType::Fibonacci), None);
}

#[test]
fn selected_card_name_follows_the_deck() {
    let mut player = Player::new(String::from("Alice"), 0);
    player.selected_card = Some(4);
    assert_eq!(player.selected_card_name(DeckType::Fibonacci), Some("5"));
    assert_eq!(player.selected_card_name(DeckType::Days), Some("3"));
    player.selected_card = Some(9);
    assert_eq!(player.selected_card_name(DeckType::Fibonacci), Some("∞"));
    assert_eq!(player.selected_card_name(DeckType::Days), None);
}

#[test]
fn player_clone_keeps_every_field() {
    let mut player = Player::new(String::from("Bob"), 7);
    player.selected_card = Some(2);
    let copy = player.clone();
    assert_eq!(copy.name, "Bob");
    assert_eq!(copy.selected_card, Some(2));
    assert_eq!(copy.last_heartbeat, 7);
}

#[test]
fn idle_starts_after_the_threshold() {
    let player = Player::new(String::from("Alice"), 1_000);
    assert_eq!(PLAYER_IDLE_THRESHOLD, 30_000);
    assert!(!player.is_idle(1_000, PLAYER_IDLE_THRESHOLD));
    assert!(!player.is_idle(31_000, PLAYER_IDLE_THRESHOLD));
    assert!(player.is_idle(31_001, PLAYER_IDLE_THRESHOLD));
    assert!(!player.is_idle(0, PLAYER_IDLE_THRESHOLD));
    assert!(player.is_idle(1_001, 0));
    assert!(!player.is_idle(1_000, 0));
}

#[test]
fn expiry_starts_at_the_threshold() {
    let player = Player::new(String::from("Alice"), 1_000);
    assert!(!player.is_expired(1_999, 1_000));
    assert!(player.is_expired(2_000, 1_000));
    assert!(player.is_expired(u64::MAX, 1_000));
    assert!(!player.is_expired(999, 1_000));
    assert!(player.is_expired(1_000, 0));
    assert!(!player.is_expired(999, 0));
}

#[test]
fn fresh_ids_are_random_uuids() {
    let first = Player::next_id();
    let second = Player::next_id();
    assert_eq!(first & RANDOM_ID_MASK, RANDOM_ID_TAG);
    assert_eq!(second & RANDOM_ID_MASK, RANDOM_ID_TAG);
    assert_ne!(first, second);
    let as_uuid = uuid::Uuid::from_u128(first);
    assert_eq!(as_uuid.get_version_num(), 4);
    assert_eq!(as_uuid.get_variant(), uuid::Variant::RFC4122);
    assert_eq!(as_uuid.as_u128(), first);
}
