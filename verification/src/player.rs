//! Players: who they are, what they hold, and when they were last heard from.

use crate::deck::DeckType;
use vstd::prelude::*;

verus! {

/// Stable handle for a player, whatever the display name is. It is the 128-bit value of a
/// UUID.
pub type PlayerId = u128;

/// A point in time, in milliseconds on the clock of whoever drives the session.
pub type Timestamp = u64;

/// A player whose last heartbeat is more than this many milliseconds old is shown as idle.
pub const PLAYER_IDLE_THRESHOLD: u64 = 30_000;

/// The bits of a player id that every freshly drawn id has in common: the version
/// nibble and the two variant bits of a random UUID.
pub const RANDOM_ID_MASK: u128 = 0x0000_0000_0000_f000_c000_0000_0000_0000;

/// The value of the bits under `RANDOM_ID_MASK` in a freshly drawn id.
pub const RANDOM_ID_TAG: u128 = 0x0000_0000_0000_4000_8000_0000_0000_0000;

/// A participant of the game.
#[derive(Debug)]
pub struct Player {
    /// The name displayed with the cards.
    pub name: String,
    /// Index into the labels of the session's deck.
    pub selected_card: Option<usize>,
    /// When the player was last heard from.
    pub last_heartbeat: Timestamp,
}

/// What a `Player` is, mathematically.
pub struct PlayerView {
    pub name: Seq<char>,
    pub selected_card: Option<usize>,
    pub last_heartbeat: Timestamp,
}

impl PlayerView {
    /// A player as it is right after registration.
    pub open spec fn fresh(name: Seq<char>, now: Timestamp) -> PlayerView {
        PlayerView { name, selected_card: None, last_heartbeat: now }
    }

    /// Whether the last heartbeat is more than `threshold` old at `now`.
    pub open spec fn is_idle(self, now: Timestamp, threshold: u64) -> bool {
        now - self.last_heartbeat > threshold
    }

    /// Whether the last heartbeat is at least `max_idle` old at `now`.
    pub open spec fn is_expired(self, now: Timestamp, max_idle: u64) -> bool {
        now - self.last_heartbeat >= max_idle
    }

    /// Whether the selection, if any, names a card of `deck`.
    pub open spec fn fits(self, deck: DeckType) -> bool {
        self.selected_card matches Some(card) ==> card < deck.size()
    }
}

impl View for Player {
    type V = PlayerView;

    open spec fn view(&self) -> PlayerView {
        PlayerView {
            name: self.name@,
            selected_card: self.selected_card,
            last_heartbeat: self.last_heartbeat,
        }
    }
}

impl Clone for Player {
    fn clone(&self) -> (copy: Self)
        ensures
            copy@ == self@,
    {
        Player {
            name: self.name.clone(),
            selected_card: self.selected_card,
            last_heartbeat: self.last_heartbeat,
        }
    }
}

impl Player {
    /// A player named `name` with no card selected, last heard from at `now`.
    pub fn new(name: String, now: Timestamp) -> (player: Player)
        ensures
            player@ == PlayerView::fresh(name@, now),
    {
        Player { name, selected_card: None, last_heartbeat: now }
    }

    /// Draws a fresh random player id.
    ///
    /// Trusted: calls `uuid::Uuid::new_v4` and takes the UUID's 128-bit value with
    /// `Uuid::as_u128`. The contract claims only what holds of every random UUID: the
    /// version nibble is 4 and the variant bits are `10`. Which id comes back is left
    /// open, and two calls may well differ. The call panics if the operating system
    /// cannot supply random bytes.
    #[verifier::external_body]
    pub fn next_id() -> (id: PlayerId)
        ensures
            id & RANDOM_ID_MASK == RANDOM_ID_TAG,
    {
        uuid::Uuid::new_v4().as_u128()
    }

    /// The label of the selected card in `deck`; `None` when nothing is selected or the
    /// selection is not a card of `deck`.
    pub fn selected_card_name(&self, deck: DeckType) -> (label: Option<&'static str>)
        ensures
            match self.selected_card {
                Some(card) if card < deck.size() => label is Some && label->0@
                    == deck.labels()[card as int],
                _ => label is None,
            },
    {
        match self.selected_card {
            Some(card) => deck.label(card),
            None => None,
        }
    }

    /// Whether the player counts as idle at `now`: the last heartbeat is more than
    /// `threshold` old. A heartbeat that lies after `now` is not old at all.
    pub fn is_idle(&self, now: Timestamp, threshold: u64) -> (idle: bool)
        ensures
            idle == self@.is_idle(now, threshold),
    {
        now > self.last_heartbeat && now - self.last_heartbeat > threshold
    }

    /// Whether the player is due for eviction at `now`: the last heartbeat is at least
    /// `max_idle` old. A heartbeat that lies after `now` is not old at all.
    pub fn is_expired(&self, now: Timestamp, max_idle: u64) -> (expired: bool)
        ensures
            expired == self@.is_expired(now, max_idle),
    {
        now >= self.last_heartbeat && now - self.last_heartbeat >= max_idle
    }
}

} // verus!
