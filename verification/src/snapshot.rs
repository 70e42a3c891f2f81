//! Snapshots: the full picture of the game that every broadcast carries.

use crate::game::GameView;
use crate::player::{Player, PlayerId, PlayerView, Timestamp};
use vstd::prelude::*;

verus! {

/// A selection as a signed 32-bit index: the index itself where it fits, `i32::MAX`
/// where it does not.
pub open spec fn selection_to_i32(selection: Option<usize>) -> Option<i32> {
    match selection {
        Some(index) => Some(
            if index <= i32::MAX {
                index as i32
            } else {
                i32::MAX
            },
        ),
        None => None,
    }
}

/// The selection that a signed 32-bit index asks for: the index itself where it is not
/// negative; a negative one asks for `usize::MAX`, which is a card of no deck.
pub open spec fn selection_from_i32(card: Option<i32>) -> Option<usize> {
    match card {
        Some(index) => Some(
            if index >= 0 {
                index as usize
            } else {
                usize::MAX
            },
        ),
        None => None,
    }
}

/// One player as a snapshot shows it.
#[derive(Debug)]
pub struct PlayerSnapshot {
    pub id: PlayerId,
    /// The name displayed with the cards.
    pub name: String,
    /// Index into the labels of the session's deck.
    pub selected_card: Option<usize>,
    /// Whether the player had not been heard from for a while when the snapshot was
    /// taken.
    pub idle: bool,
}

/// What a `PlayerSnapshot` is, mathematically.
pub struct PlayerSnapshotView {
    pub id: PlayerId,
    pub name: Seq<char>,
    pub selected_card: Option<usize>,
    pub idle: bool,
}

impl PlayerSnapshotView {
    /// How `player`, registered under `id`, is shown at `now`, if players count as idle
    /// once their heartbeat is more than `idle_after` old.
    pub open spec fn of(id: PlayerId, player: PlayerView, now: Timestamp, idle_after: u64)
        -> PlayerSnapshotView {
        PlayerSnapshotView {
            id,
            name: player.name,
            selected_card: player.selected_card,
            idle: player.is_idle(now, idle_after),
        }
    }
}

impl View for PlayerSnapshot {
    type V = PlayerSnapshotView;

    open spec fn view(&self) -> PlayerSnapshotView {
        PlayerSnapshotView {
            id: self.id,
            name: self.name@,
            selected_card: self.selected_card,
            idle: self.idle,
        }
    }
}

impl Clone for PlayerSnapshot {
    fn clone(&self) -> (copy: Self)
        ensures
            copy@ == self@,
    {
        PlayerSnapshot {
            id: self.id,
            name: self.name.clone(),
            selected_card: self.selected_card,
            idle: self.idle,
        }
    }
}

impl PlayerSnapshot {
    /// How `player`, registered under `id`, is shown at `now`: marked idle when its last
    /// heartbeat is more than `idle_after` old.
    pub fn from_player(id: PlayerId, player: &Player, now: Timestamp, idle_after: u64) -> (shown:
        PlayerSnapshot)
        ensures
            shown@ == PlayerSnapshotView::of(id, player@, now, idle_after),
    {
        PlayerSnapshot {
            id,
            name: player.name.clone(),
            selected_card: player.selected_card,
            idle: player.is_idle(now, idle_after),
        }
    }

    /// The selection as a signed 32-bit index, as some transports carry it. An index
    /// too large for that becomes `i32::MAX`.
    pub fn selected_card_i32(&self) -> (card: Option<i32>)
        ensures
            card == selection_to_i32(self.selected_card),
    {
        match self.selected_card {
            Some(index) => if index <= 0x7fff_ffff {
                Some(index as i32)
            } else {
                Some(0x7fff_ffff)
            },
            None => None,
        }
    }

    /// Whether the two show the same player in the same way.
    pub fn same_as(&self, other: &PlayerSnapshot) -> (same: bool)
        ensures
            same == (self@ == other@),
    {
        self.id == other.id && self.name == other.name && self.selected_card
            == other.selected_card && self.idle == other.idle
    }
}

/// The full picture of the game at one moment.
#[derive(Debug)]
pub struct Snapshot {
    /// All the players in the game, each once, in no particular order.
    pub players: Vec<PlayerSnapshot>,
    /// Whether the round is being called.
    pub is_calling: bool,
}

/// What a `Snapshot` is, mathematically.
pub struct SnapshotView {
    pub players: Seq<PlayerSnapshotView>,
    pub is_calling: bool,
}

impl SnapshotView {
    /// Whether this is a picture of `game` taken at `now`: the calling flag is the
    /// game's, every player of the game is shown exactly once and as it is, and nobody
    /// else is shown.
    pub open spec fn depicts(self, game: GameView, now: Timestamp, idle_after: u64) -> bool {
        &&& self.is_calling == game.is_calling
        &&& self.players.len() == game.players.len()
        &&& forall|i: int, j: int|
            0 <= i < j < self.players.len() ==> (#[trigger] self.players[i]).id != (
            #[trigger] self.players[j]).id
        &&& forall|i: int|
            0 <= i < self.players.len() ==> {
                let shown = #[trigger] self.players[i];
                &&& game.players.contains_key(shown.id)
                &&& shown == PlayerSnapshotView::of(
                    shown.id,
                    game.players[shown.id],
                    now,
                    idle_after,
                )
            }
        &&& forall|id: PlayerId| #[trigger]
            game.players.contains_key(id) ==> self.shows(id)
    }

    /// Whether a player with id `id` is shown.
    pub open spec fn shows(self, id: PlayerId) -> bool {
        exists|i: int| 0 <= i < self.players.len() && (#[trigger] self.players[i]).id == id
    }

    /// Whether position `i` is the first one that shows a player with id `id`.
    pub open spec fn first_shown_at(self, id: PlayerId, i: int) -> bool {
        &&& 0 <= i < self.players.len()
        &&& self.players[i].id == id
        &&& forall|j: int| 0 <= j < i ==> (#[trigger] self.players[j]).id != id
    }

    /// The first player shown with id `id`, if there is one.
    pub open spec fn first_shown(self, id: PlayerId) -> Option<PlayerSnapshotView> {
        if exists|i: int| self.first_shown_at(id, i) {
            Some(self.players[choose|i: int| self.first_shown_at(id, i)])
        } else {
            None
        }
    }
}

impl View for Snapshot {
    type V = SnapshotView;

    open spec fn view(&self) -> SnapshotView {
        SnapshotView {
            players: self.players@.map_values(|p: PlayerSnapshot| p@),
            is_calling: self.is_calling,
        }
    }
}

impl Clone for Snapshot {
    fn clone(&self) -> (copy: Self)
        ensures
            copy@ == self@,
    {
        let mut players: Vec<PlayerSnapshot> = Vec::new();
        let mut i: usize = 0;
        while i < self.players.len()
            invariant
                i <= self.players.len(),
                players@.len() == i,
                forall|k: int| 0 <= k < i ==> (#[trigger] players@[k])@ == self.players@[k]@,
            decreases self.players.len() - i,
        {
            players.push(self.players[i].clone());
            i += 1;
        }
        let copy = Snapshot { players, is_calling: self.is_calling };
        assert(copy@.players =~= self@.players);
        copy
    }
}

impl Snapshot {
    /// The picture of a game that nobody has joined and that is not being called.
    pub fn empty() -> (picture: Snapshot)
        ensures
            picture@ == (SnapshotView { players: Seq::empty(), is_calling: false }),
    {
        let picture = Snapshot { players: Vec::new(), is_calling: false };
        assert(picture@.players =~= Seq::empty());
        picture
    }

    /// Whether the two pictures are the same: the same calling flag, and the same
    /// players shown in the same way and in the same order.
    pub fn same_as(&self, other: &Snapshot) -> (same: bool)
        ensures
            same == (self@ == other@),
    {
        if self.is_calling != other.is_calling || self.players.len() != other.players.len() {
            assert(other@.players.len() == other.players@.len());
            return false;
        }
        let mut i: usize = 0;
        while i < self.players.len()
            invariant
                i <= self.players.len(),
                self.players.len() == other.players.len(),
                forall|k: int| 0 <= k < i ==> (#[trigger] self.players@[k])@ == other.players@[k]@,
            decreases self.players.len() - i,
        {
            if !self.players[i].same_as(&other.players[i]) {
                assert(other@.players[i as int] == other.players@[i as int]@);
                return false;
            }
            i += 1;
        }
        assert(self@.players =~= other@.players);
        true
    }

    /// The first shown player with id `id`, if there is one.
    pub fn find(&self, id: PlayerId) -> (found: Option<&PlayerSnapshot>)
        ensures
            match found {
                Some(p) => self@.first_shown(id) == Some(p@),
                None => self@.first_shown(id) is None,
            },
    {
        let mut i: usize = 0;
        while i < self.players.len()
            invariant
                i <= self.players.len(),
                forall|k: int| 0 <= k < i ==> (#[trigger] self@.players[k]).id != id,
            decreases self.players.len() - i,
        {
            if self.players[i].id == id {
                proof {
                    assert(self@.first_shown_at(id, i as int));
                    let k = choose|k: int| self@.first_shown_at(id, k);
                    assert(k == i);
                }
                return Some(&self.players[i]);
            }
            i += 1;
        }
        None
    }
}

} // verus!
