//! The game state: the players at the table and whether the round is being called.
//!
//! `GameView` is the mathematical model and says, as spec functions, what every
//! operation does. `GameState` is the executable state; each of its methods is proved to
//! do to the state what the model's function of the same name does to the view.
//!
//! Card selections are locked while the round is being called: a request to change a
//! selection is then refused and changes nothing.

use crate::deck::DeckType;
use crate::player::{Player, PlayerId, PlayerView, Timestamp};
use crate::snapshot::{PlayerSnapshot, PlayerSnapshotView, Snapshot};
use std::collections::HashMap;
use vstd::prelude::*;
use vstd::std_specs::iter::IteratorSpec;

verus! {

/// Why a command was refused. What a refused command asked for is not done.
#[derive(Debug, Clone, Copy, PartialEq, Eq, Structural)]
pub enum GameError {
    /// The command names a player that is not in the game.
    UnknownPlayer,
    /// The round is being called, so selections cannot change.
    SelectionsLocked,
    /// The requested card is not a card of the session's deck.
    InvalidCard,
    /// The offered key is not the session's admin key.
    InvalidAdminKey,
}

impl GameError {
    /// A sentence for the log.
    pub fn message(&self) -> (text: &'static str)
        ensures
            text@ == match self {
                GameError::UnknownPlayer => "Unknown player."@,
                GameError::SelectionsLocked => "Game is currently calling. Selections are locked."@,
                GameError::InvalidCard => "No such card in the deck."@,
                GameError::InvalidAdminKey => "Invalid admin key."@,
            },
    {
        match self {
            GameError::UnknownPlayer => "Unknown player.",
            GameError::SelectionsLocked => "Game is currently calling. Selections are locked.",
            GameError::InvalidCard => "No such card in the deck.",
            GameError::InvalidAdminKey => "Invalid admin key.",
        }
    }
}

/// What the other participants can see of a player.
pub struct PublicPlayer {
    pub name: Seq<char>,
    pub selected_card: Option<usize>,
}

/// What a broadcast shows of the game: who plays under which name, who selected what,
/// and whether the round is being called. Heartbeats are not part of it.
pub struct PublicView {
    pub players: Map<PlayerId, PublicPlayer>,
    pub is_calling: bool,
}

/// What a `GameState` is, mathematically.
pub struct GameView {
    pub players: Map<PlayerId, PlayerView>,
    pub is_calling: bool,
    pub deck: DeckType,
}

/// What a click on `requested` makes of the selection `current`: clicking the selected
/// card again deselects it, anything else becomes the selection.
pub open spec fn toggled(current: Option<usize>, requested: Option<usize>) -> Option<usize> {
    if current == requested {
        None
    } else {
        requested
    }
}

impl GameView {
    /// The state of a session that nobody has joined yet.
    pub open spec fn empty(deck: DeckType) -> GameView {
        GameView { players: Map::empty(), is_calling: false, deck }
    }

    /// Finitely many players, each selection a card of the deck.
    pub open spec fn wf(self) -> bool {
        &&& self.players.dom().finite()
        &&& forall|id: PlayerId| #[trigger]
            self.players.contains_key(id) ==> self.players[id].fits(self.deck)
    }

    /// The part of the state that broadcasts show.
    pub open spec fn observable(self) -> PublicView {
        PublicView {
            players: self.players.map_values(
                |p: PlayerView| PublicPlayer { name: p.name, selected_card: p.selected_card },
            ),
            is_calling: self.is_calling,
        }
    }

    /// Whether the two states show the same: the same calling flag and the same
    /// players, each under the same name and with the same selection.
    pub open spec fn shows_the_same_as(self, other: GameView) -> bool {
        &&& self.is_calling == other.is_calling
        &&& forall|id: PlayerId|
            self.players.contains_key(id) <==> #[trigger] other.players.contains_key(id)
        &&& forall|id: PlayerId| #[trigger]
            self.players.contains_key(id) ==> {
                &&& self.players[id].name == other.players[id].name
                &&& self.players[id].selected_card == other.players[id].selected_card
            }
    }

    /// Two states have the same observable part exactly when they show the same.
    pub proof fn lemma_observable(self, other: GameView)
        ensures
            self.observable() == other.observable() <==> self.shows_the_same_as(other),
    {
        let a = self.observable();
        let b = other.observable();
        if self.shows_the_same_as(other) {
            assert(a.players =~= b.players);
        }
        if a == b {
            assert forall|id: PlayerId|
                self.players.contains_key(id) <==> #[trigger] other.players.contains_key(
                    id,
                ) by {
                assert(b.players.contains_key(id) == other.players.contains_key(id));
            }
            assert forall|id: PlayerId| #[trigger] self.players.contains_key(id) implies {
                &&& self.players[id].name == other.players[id].name
                &&& self.players[id].selected_card == other.players[id].selected_card
            } by {
                assert(a.players[id] == b.players[id]);
            }
        }
    }

    /// Puts a fresh player under `id`, in place of whoever was there.
    pub open spec fn register_player(self, id: PlayerId, name: Seq<char>, now: Timestamp)
        -> GameView {
        GameView { players: self.players.insert(id, PlayerView::fresh(name, now)), ..self }
    }

    /// Gives player `id` the name `name`; nothing changes when there is no such player.
    pub open spec fn rename_player(self, id: PlayerId, name: Seq<char>) -> GameView {
        if self.players.contains_key(id) {
            GameView {
                players: self.players.insert(id, PlayerView { name, ..self.players[id] }),
                ..self
            }
        } else {
            self
        }
    }

    /// Why a request of player `id` for `card` is refused, if it is.
    pub open spec fn card_refusal(self, id: PlayerId, card: Option<usize>) -> Option<
        GameError,
    > {
        if self.is_calling {
            Some(GameError::SelectionsLocked)
        } else if !self.players.contains_key(id) {
            Some(GameError::UnknownPlayer)
        } else if card is Some && card->0 >= self.deck.size() {
            Some(GameError::InvalidCard)
        } else {
            None
        }
    }

    /// Applies a request of player `id` for `card`: the selection is toggled, unless the
    /// request is refused.
    pub open spec fn set_player_card(self, id: PlayerId, card: Option<usize>) -> GameView {
        if self.card_refusal(id, card) is None {
            GameView {
                players: self.players.insert(
                    id,
                    PlayerView {
                        selected_card: toggled(self.players[id].selected_card, card),
                        ..self.players[id]
                    },
                ),
                ..self
            }
        } else {
            self
        }
    }

    /// Takes player `id` out of the game.
    pub open spec fn remove_player(self, id: PlayerId) -> GameView {
        GameView { players: self.players.remove(id), ..self }
    }

    /// Starts (`true`) or ends (`false`) calling the round.
    pub open spec fn set_calling(self, calling: bool) -> GameView {
        GameView { is_calling: calling, ..self }
    }

    /// Whether player `id` is in the game and has a card selected.
    pub open spec fn has_selection(self, id: PlayerId) -> bool {
        self.players.contains_key(id) && self.players[id].selected_card is Some
    }

    /// Clears every selection and ends calling.
    pub open spec fn reset(self) -> GameView {
        GameView {
            players: self.players.map_values(
                |p: PlayerView| PlayerView { selected_card: None, ..p },
            ),
            is_calling: false,
            ..self
        }
    }

    /// Notes that player `id` was heard from at `now`; nothing changes when there is no
    /// such player.
    pub open spec fn touch_heartbeat(self, id: PlayerId, now: Timestamp) -> GameView {
        if self.players.contains_key(id) {
            GameView {
                players: self.players.insert(
                    id,
                    PlayerView { last_heartbeat: now, ..self.players[id] },
                ),
                ..self
            }
        } else {
            self
        }
    }

    /// Whether player `id` is in the game and due for eviction at `now`.
    pub open spec fn is_expired(self, id: PlayerId, now: Timestamp, max_idle: u64) -> bool {
        self.players.contains_key(id) && self.players[id].is_expired(now, max_idle)
    }

    /// Drops every player whose last heartbeat is at least `max_idle` old at `now`.
    pub open spec fn evict_idle(self, now: Timestamp, max_idle: u64) -> GameView {
        GameView {
            players: Map::new(
                |id: PlayerId| self.players.contains_key(id) && !self.is_expired(id, now, max_idle),
                |id: PlayerId| self.players[id],
            ),
            ..self
        }
    }
}

/// The authoritative state of one game.
#[derive(Debug)]
pub struct GameState {
    /// All the players in the game.
    players: HashMap<PlayerId, Player>,
    /// While calling, selections are frozen and revealed to all players.
    is_calling: bool,
    /// The deck the session is played with.
    deck: DeckType,
}

impl View for GameState {
    type V = GameView;

    closed spec fn view(&self) -> GameView {
        GameView {
            players: self.players@.map_values(|p: Player| p@),
            is_calling: self.is_calling,
            deck: self.deck,
        }
    }
}

impl Default for GameState {
    /// The state of a session played with the Fibonacci deck that nobody has joined
    /// yet.
    fn default() -> (state: GameState)
        ensures
            state@ == GameView::empty(DeckType::Fibonacci),
            state@.wf(),
    {
        GameState::new(DeckType::Fibonacci)
    }
}

impl GameState {
    /// The state of a session played with `deck` that nobody has joined yet.
    pub fn new(deck: DeckType) -> (state: GameState)
        ensures
            state@ == GameView::empty(deck),
            state@.wf(),
    {
        let state = GameState { players: HashMap::new(), is_calling: false, deck };
        assert(state@.players =~= Map::empty());
        state
    }

    /// Whether the round is being called.
    pub fn is_calling(&self) -> (calling: bool)
        ensures
            calling == self@.is_calling,
    {
        self.is_calling
    }

    /// The deck the session is played with.
    pub fn deck(&self) -> (deck: DeckType)
        ensures
            deck == self@.deck,
    {
        self.deck
    }

    /// The number of players in the game.
    pub fn len(&self) -> (n: usize)
        ensures
            n == self@.players.len(),
    {
        broadcast use vstd::std_specs::hash::group_hash_axioms;
        assert(self@.players.dom() =~= self.players@.dom());
        self.players.len()
    }

    /// Whether player `id` is in the game.
    pub fn contains(&self, id: PlayerId) -> (present: bool)
        ensures
            present == self@.players.contains_key(id),
    {
        broadcast use vstd::std_specs::hash::group_hash_axioms;
        self.players.contains_key(&id)
    }

    /// A copy of player `id`, if it is in the game.
    pub fn player(&self, id: PlayerId) -> (found: Option<Player>)
        ensures
            match found {
                Some(p) => self@.players.contains_key(id) && p@ == self@.players[id],
                None => !self@.players.contains_key(id),
            },
    {
        broadcast use vstd::std_specs::hash::group_hash_axioms;
        match self.players.get(&id) {
            Some(p) => Some(p.clone()),
            None => None,
        }
    }

    /// Registers a player under `id`: a fresh player named `name`, with no selection and
    /// last heard from at `now`, takes the place of whoever was registered under `id`.
    /// Returns whether the observable state changed.
    pub fn register_player(&mut self, id: PlayerId, name: String, now: Timestamp) -> (changed:
        bool)
        ensures
            final(self)@ == old(self)@.register_player(id, name@, now),
            old(self)@.wf() ==> final(self)@.wf(),
            changed == (final(self)@.observable() != old(self)@.observable()),
            changed == !(old(self)@.players.contains_key(id) && old(self)@.players[id].name
                == name@ && old(self)@.players[id].selected_card is None),
    {
        broadcast use vstd::std_specs::hash::group_hash_axioms;
        let changed = match self.players.get(&id) {
            Some(previous) => !(previous.name == name) || previous.selected_card.is_some(),
            None => true,
        };
        self.players.insert(id, Player::new(name, now));
        proof {
            let before = old(self)@;
            let after = self@;
            assert(after.players =~= before.register_player(id, name@, now).players);
            if changed {
                assert(after.observable().players[id] != before.observable().players[id]
                    || !before.observable().players.contains_key(id));
            } else {
                assert(after.observable().players =~= before.observable().players);
            }
        }
        changed
    }

    /// Gives player `id` the name `name`. Fails with `UnknownPlayer`, changing nothing,
    /// exactly when there is no such player; otherwise returns whether the observable
    /// state changed, which is whether the name differs from the old one.
    pub fn rename_player(&mut self, id: PlayerId, name: String) -> (outcome: Result<
        bool,
        GameError,
    >)
        ensures
            final(self)@ == old(self)@.rename_player(id, name@),
            old(self)@.wf() ==> final(self)@.wf(),
            !old(self)@.players.contains_key(id) <==> outcome == Err::<bool, GameError>(
                GameError::UnknownPlayer,
            ),
            old(self)@.players.contains_key(id) ==> outcome == Ok::<bool, GameError>(
                final(self)@.observable() != old(self)@.observable(),
            ),
            old(self)@.players.contains_key(id) ==> outcome == Ok::<bool, GameError>(
                old(self)@.players[id].name != name@,
            ),
    {
        broadcast use vstd::std_specs::hash::group_hash_axioms;
        match self.players.remove(&id) {
            Some(mut player) => {
                let changed = !(player.name == name);
                player.name = name;
                self.players.insert(id, player);
                proof {
                    let before = old(self)@;
                    let after = self@;
                    assert(after.players =~= before.rename_player(id, name@).players);
                    if changed {
                        assert(after.observable().players[id] != before.observable().players[id]);
                    } else {
                        assert(after.observable().players =~= before.observable().players);
                    }
                }
                Ok(changed)
            },
            None => {
                assert(self@.players =~= old(self)@.players);
                Err(GameError::UnknownPlayer)
            },
        }
    }

    /// Handles a click of player `id` on `card` (`None` asks to clear the selection).
    ///
    /// The request is refused, changing nothing, with `SelectionsLocked` while the round
    /// is being called; else with `UnknownPlayer` when there is no such player; else with
    /// `InvalidCard` when `card` is not a card of the deck. Otherwise the selection is
    /// toggled: a click on the selected card deselects it, any other request becomes the
    /// selection. Returns whether the observable state changed.
    pub fn set_player_card(&mut self, id: PlayerId, card: Option<usize>) -> (outcome: Result<
        bool,
        GameError,
    >)
        ensures
            final(self)@ == old(self)@.set_player_card(id, card),
            old(self)@.wf() ==> final(self)@.wf(),
            match old(self)@.card_refusal(id, card) {
                Some(refusal) => outcome == Err::<bool, GameError>(refusal),
                None => {
                    &&& outcome == Ok::<bool, GameError>(
                        final(self)@.observable() != old(self)@.observable(),
                    )
                    &&& outcome == Ok::<bool, GameError>(
                        toggled(old(self)@.players[id].selected_card, card)
                            != old(self)@.players[id].selected_card,
                    )
                },
            },
    {
        broadcast use vstd::std_specs::hash::group_hash_axioms;
        if self.is_calling {
            return Err(GameError::SelectionsLocked);
        }
        if let Some(index) = card {
            if index >= self.deck.len() {
                if self.players.contains_key(&id) {
                    return Err(GameError::InvalidCard);
                } else {
                    return Err(GameError::UnknownPlayer);
                }
            }
        }
        match self.players.remove(&id) {
            Some(mut player) => {
                let previous = player.selected_card;
                let selection = if previous == card {
                    None
                } else {
                    card
                };
                player.selected_card = selection;
                self.players.insert(id, player);
                let changed = previous != selection;
                proof {
                    let before = old(self)@;
                    let after = self@;
                    assert(after.players =~= before.set_player_card(id, card).players);
                    if changed {
                        assert(after.observable().players[id] != before.observable().players[id]);
                    } else {
                        assert(after.observable().players =~= before.observable().players);
                    }
                }
                Ok(changed)
            },
            None => {
                assert(self@.players =~= old(self)@.players);
                Err(GameError::UnknownPlayer)
            },
        }
    }

    /// Takes player `id` out of the game. Returns whether the observable state changed:
    /// whether there was such a player.
    pub fn remove_player(&mut self, id: PlayerId) -> (changed: bool)
        ensures
            final(self)@ == old(self)@.remove_player(id),
            old(self)@.wf() ==> final(self)@.wf(),
            changed == old(self)@.players.contains_key(id),
            changed == (final(self)@.observable() != old(self)@.observable()),
    {
        broadcast use vstd::std_specs::hash::group_hash_axioms;
        let changed = self.players.remove(&id).is_some();
        proof {
            let before = old(self)@;
            let after = self@;
            assert(after.players =~= before.remove_player(id).players);
            if changed {
                assert(!after.observable().players.contains_key(id));
            } else {
                assert(after.observable().players =~= before.observable().players);
            }
        }
        changed
    }

    /// Starts (`true`) or ends (`false`) calling the round. Returns whether the
    /// observable state changed: whether the flag was different before.
    pub fn set_calling(&mut self, calling: bool) -> (changed: bool)
        ensures
            final(self)@ == old(self)@.set_calling(calling),
            old(self)@.wf() ==> final(self)@.wf(),
            changed == (old(self)@.is_calling != calling),
            changed == (final(self)@.observable() != old(self)@.observable()),
    {
        let changed = self.is_calling != calling;
        self.is_calling = calling;
        changed
    }

    /// Notes that player `id` was heard from at `now`. Fails with `UnknownPlayer`,
    /// changing nothing, exactly when there is no such player. The observable state never
    /// changes.
    pub fn touch_heartbeat(&mut self, id: PlayerId, now: Timestamp) -> (outcome: Result<
        (),
        GameError,
    >)
        ensures
            final(self)@ == old(self)@.touch_heartbeat(id, now),
            old(self)@.wf() ==> final(self)@.wf(),
            final(self)@.observable() == old(self)@.observable(),
            old(self)@.players.contains_key(id) <==> outcome is Ok,
            outcome is Err ==> outcome == Err::<(), GameError>(GameError::UnknownPlayer),
    {
        broadcast use vstd::std_specs::hash::group_hash_axioms;
        match self.players.remove(&id) {
            Some(mut player) => {
                player.last_heartbeat = now;
                self.players.insert(id, player);
                proof {
                    let before = old(self)@;
                    let after = self@;
                    assert(after.players =~= before.touch_heartbeat(id, now).players);
                    assert(after.observable().players =~= before.observable().players);
                }
                Ok(())
            },
            None => {
                assert(self@.players =~= old(self)@.players);
                Err(GameError::UnknownPlayer)
            },
        }
    }

    /// The ids of the players in the game, each once, in no particular order.
    pub fn player_ids(&self) -> (ids: Vec<PlayerId>)
        ensures
            ids@.no_duplicates(),
            ids@.to_set() == self@.players.dom(),
            ids@.len() == self@.players.len(),
    {
        broadcast use vstd::std_specs::hash::group_hash_axioms;
        let mut ids: Vec<PlayerId> = Vec::new();
        for id in it: self.players.keys()
            invariant
                it.seq() == self.players.keys().remaining(),
                it.index() <= it.seq().len(),
                ids@ == it.seq().take(it.index()).unref(),
        {
            ids.push(*id);
        }
        proof {
            let all = self.players.keys().remaining();
            assert(all.take(all.len() as int) == all);
        }
        ids
    }

    /// Clears every player's selection and ends calling. Returns whether the observable
    /// state changed: whether the round was being called or anyone had a card selected.
    pub fn reset(&mut self) -> (changed: bool)
        ensures
            final(self)@ == old(self)@.reset(),
            old(self)@.wf() ==> final(self)@.wf(),
            changed == (final(self)@.observable() != old(self)@.observable()),
            changed == (old(self)@.is_calling || exists|id: PlayerId|
                old(self)@.has_selection(id)),
    {
        broadcast use vstd::std_specs::hash::group_hash_axioms;
        let ids = self.player_ids();
        let ghost before = self.players@;
        let ghost was_calling = self.is_calling;
        let mut changed = self.is_calling;
        self.is_calling = false;
        let mut i: usize = 0;
        while i < ids.len()
            invariant
                i <= ids.len(),
                ids@.no_duplicates(),
                ids@.to_set() == before.dom(),
                self.players@.dom() == before.dom(),
                self.deck == old(self).deck,
                !self.is_calling,
                forall|k: int|
                    0 <= k < i ==> (#[trigger] self.players@[ids@[k]])@ == (PlayerView {
                        selected_card: None,
                        ..before[ids@[k]]@
                    }),
                forall|k: int| i <= k < ids.len() ==> #[trigger] self.players@[ids@[k]] == before[ids@[k]],
                changed == (was_calling || exists|k: int|
                    0 <= k < i && (#[trigger] before[ids@[k]]).selected_card is Some),
            decreases ids.len() - i,
        {
            let id = ids[i];
            match self.players.remove(&id) {
                Some(mut player) => {
                    if player.selected_card.is_some() {
                        changed = true;
                    }
                    player.selected_card = None;
                    self.players.insert(id, player);
                },
                None => {},
            }
            i += 1;
        }
        proof {
            let start = old(self)@;
            let end = self@;
            assert forall|id: PlayerId| before.contains_key(id) implies (#[trigger] self.players@[id])@
                == (PlayerView { selected_card: None, ..before[id]@ }) by {
                let k = choose|k: int| 0 <= k < ids@.len() && ids@[k] == id;
                assert(self.players@[ids@[k]]@ == (PlayerView {
                    selected_card: None,
                    ..before[ids@[k]]@
                }));
            }
            assert(end.players =~= start.reset().players);
            if changed {
                if !was_calling {
                    let k = choose|k: int|
                        0 <= k < ids@.len() && (#[trigger] before[ids@[k]]).selected_card is Some;
                    let id = ids@[k];
                    assert(start.has_selection(id));
                    assert(start.observable().players[id] != end.observable().players[id]);
                }
            } else {
                assert forall|id: PlayerId| before.contains_key(id) implies (
                #[trigger] before[id]).selected_card is None by {
                    let k = choose|k: int| 0 <= k < ids@.len() && ids@[k] == id;
                    assert(before[ids@[k]].selected_card is None);
                }
                assert(end.observable().players =~= start.observable().players);
                assert forall|id: PlayerId| !start.has_selection(id) by {
                    if before.contains_key(id) {
                        assert(before[id].selected_card is None);
                    }
                }
            }
        }
        changed
    }

    /// Drops every player whose last heartbeat is at least `max_idle` old at `now`, and
    /// nobody else. Returns whether the observable state changed: whether anyone was
    /// dropped.
    pub fn evict_idle(&mut self, now: Timestamp, max_idle: u64) -> (changed: bool)
        ensures
            final(self)@ == old(self)@.evict_idle(now, max_idle),
            old(self)@.wf() ==> final(self)@.wf(),
            changed == (exists|id: PlayerId| old(self)@.is_expired(id, now, max_idle)),
            changed == (final(self)@.observable() != old(self)@.observable()),
    {
        broadcast use vstd::std_specs::hash::group_hash_axioms;
        let ids = self.player_ids();
        let ghost before = self.players@;
        let mut changed = false;
        let mut i: usize = 0;
        assert forall|k: int| 0 <= k < ids.len() implies self.players@.contains_key(
            #[trigger] ids@[k],
        ) by {
            assert(ids@.to_set().contains(ids@[k]));
        }
        while i < ids.len()
            invariant
                i <= ids.len(),
                ids@.no_duplicates(),
                ids@.to_set() == before.dom(),
                self.deck == old(self).deck,
                self.is_calling == old(self).is_calling,
                forall|id: PlayerId| #[trigger]
                    self.players@.contains_key(id) ==> before.contains_key(id)
                        && self.players@[id] == before[id],
                forall|k: int|
                    0 <= k < i ==> (self.players@.contains_key(#[trigger] ids@[k])
                        <==> !before[ids@[k]]@.is_expired(now, max_idle)),
                forall|k: int| i <= k < ids.len() ==> self.players@.contains_key(#[trigger] ids@[k]),
                changed == (exists|k: int|
                    0 <= k < i && (#[trigger] before[ids@[k]])@.is_expired(now, max_idle)),
            decreases ids.len() - i,
        {
            let id = ids[i];
            let expired = match self.players.get(&id) {
                Some(player) => player.is_expired(now, max_idle),
                None => false,
            };
            if expired {
                self.players.remove(&id);
                changed = true;
            }
            i += 1;
        }
        proof {
            let start = old(self)@;
            let end = self@;
            assert forall|id: PlayerId| before.contains_key(id) implies (
            #[trigger] self.players@.contains_key(id) <==> !before[id]@.is_expired(
                now,
                max_idle,
            )) by {
                let k = choose|k: int| 0 <= k < ids@.len() && ids@[k] == id;
                assert(self.players@.contains_key(ids@[k]) <==> !before[ids@[k]]@.is_expired(
                    now,
                    max_idle,
                ));
            }
            assert(end.players =~= start.evict_idle(now, max_idle).players);
            if start.wf() {
                assert forall|id: PlayerId| #[trigger]
                    end.players.contains_key(id) implies end.players[id].fits(end.deck) by {
                    assert(start.players.contains_key(id));
                }
            }
            assert(end.players.dom() =~= self.players@.dom());
            if changed {
                let k = choose|k: int|
                    0 <= k < ids@.len() && (#[trigger] before[ids@[k]])@.is_expired(now, max_idle);
                let id = ids@[k];
                assert(!end.observable().players.contains_key(id));
            } else {
                assert forall|id: PlayerId| !start.is_expired(id, now, max_idle) by {
                    if before.contains_key(id) {
                        let k = choose|k: int| 0 <= k < ids@.len() && ids@[k] == id;
                        assert(!before[ids@[k]]@.is_expired(now, max_idle));
                    }
                }
                assert(end.players =~= start.players);
            }
        }
        changed
    }

    /// The players of the game as a snapshot taken at `now` shows them: each player
    /// once, in no particular order, marked idle when its last heartbeat is more than
    /// `idle_after` old.
    pub fn players(&self, now: Timestamp, idle_after: u64) -> (shown: Vec<PlayerSnapshot>)
        ensures
            (Snapshot { players: shown, is_calling: self@.is_calling })@.depicts(
                self@,
                now,
                idle_after,
            ),
    {
        broadcast use vstd::std_specs::hash::group_hash_axioms;
        let ids = self.player_ids();
        let mut shown: Vec<PlayerSnapshot> = Vec::new();
        let mut i: usize = 0;
        while i < ids.len()
            invariant
                i <= ids.len(),
                ids@.no_duplicates(),
                ids@.to_set() == self@.players.dom(),
                shown@.len() == i,
                forall|k: int|
                    0 <= k < i ==> (#[trigger] shown@[k])@ == PlayerSnapshotView::of(
                        ids@[k],
                        self@.players[ids@[k]],
                        now,
                        idle_after,
                    ),
            decreases ids.len() - i,
        {
            let id = ids[i];
            assert(ids@.to_set().contains(ids@[i as int]));
            match self.players.get(&id) {
                Some(player) => {
                    shown.push(PlayerSnapshot::from_player(id, player, now, idle_after));
                },
                None => {},
            }
            i += 1;
        }
        proof {
            let picture = (Snapshot { players: shown, is_calling: self@.is_calling })@;
            assert forall|k: int| 0 <= k < picture.players.len() implies (
            #[trigger] picture.players[k]) == PlayerSnapshotView::of(
                ids@[k],
                self@.players[ids@[k]],
                now,
                idle_after,
            ) && self@.players.contains_key(ids@[k]) by {
                assert(ids@.to_set().contains(ids@[k]));
            }
            assert forall|id: PlayerId| #[trigger]
                self@.players.contains_key(id) implies picture.shows(id) by {
                let k = choose|k: int| 0 <= k < ids@.len() && ids@[k] == id;
                assert(picture.players[k].id == id);
            }
        }
        shown
    }

    /// The full picture of the game at `now`.
    pub fn snapshot(&self, now: Timestamp, idle_after: u64) -> (picture: Snapshot)
        ensures
            picture@.depicts(self@, now, idle_after),
    {
        Snapshot { players: self.players(now, idle_after), is_calling: self.is_calling }
    }
}

} // verus!