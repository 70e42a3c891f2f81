//! The session coordinator: the one owner of the game state.
//!
//! Commands are applied one at a time, through `&mut self`. The coordinator decides
//! what each command does to the state, and which pushes it causes and for whom; it
//! delivers nothing itself. Whoever drives the session performs the deliveries, and a
//! failed delivery changes nothing here.
//!
//! `SessionView::step` says what a command does to the session, `SessionView::handles`
//! what comes out of it. `PlaySession::handle_with_id` is proved against both.

use crate::deck::DeckType;
use crate::game::{GameError, GameState, GameView};
use crate::messages::{
    ClientCmd, ClientCmdView, Dispatch, DispatchView, ServerCmd, ServerCmdView, ServerPush,
    ServerPushView,
};
use crate::player::{
    Player, PlayerId, Timestamp, PLAYER_IDLE_THRESHOLD, RANDOM_ID_MASK, RANDOM_ID_TAG,
};
use crate::registry::{
    connections_of, is_connected, ConnectionId, ConnectionRegistry, RegistryView,
};
use crate::snapshot::{PlayerSnapshot, PlayerSnapshotView, Snapshot};
use vstd::prelude::*;
use vstd::string::StringExecFns;

verus! {

/// Certain features are only enabled for players who know the secret key for the
/// session.
pub type AdminKey = String;

/// The name of a player that joined through a connection without registering first.
pub open spec fn guest_name() -> Seq<char> {
    "Guest"@
}

/// What a `PlaySession` is, mathematically.
pub struct SessionView {
    /// The shared secret that confirms an admin.
    pub admin_key: Seq<char>,
    pub game: GameView,
    /// The owner of each live connection.
    pub connections: RegistryView,
    /// How old a heartbeat may get before its player is evicted.
    pub max_idle: u64,
}

impl SessionView {
    /// The session's game state is well formed.
    pub open spec fn wf(self) -> bool {
        self.game.wf()
    }

    /// What the command `cmd` of player `player`, arriving at `now`, makes of the game.
    pub open spec fn forward(self, player: PlayerId, cmd: ClientCmdView, now: Timestamp)
        -> GameView {
        match cmd {
            ClientCmdView::SetPlayerName(name) => self.game.rename_player(player, name),
            ClientCmdView::SetPlayerCard(card) => self.game.set_player_card(player, card),
            ClientCmdView::RemovePlayer => self.game.remove_player(player),
            ClientCmdView::AdminChallenge(_) => self.game,
            ClientCmdView::Call => self.game.set_calling(true),
            ClientCmdView::Resume => self.game.set_calling(false),
            ClientCmdView::Reset => self.game.reset(),
            ClientCmdView::Heartbeat => self.game.touch_heartbeat(player, now).evict_idle(
                now,
                self.max_idle,
            ),
        }
    }

    /// The session after the command `cmd`, arriving at `now`. `fresh` is the id drawn
    /// for the player that `RegisterPlayer` creates; no other command looks at it.
    pub open spec fn step(self, cmd: ServerCmdView, now: Timestamp, fresh: PlayerId)
        -> SessionView {
        match cmd {
            ServerCmdView::RegisterPlayer(name) => SessionView {
                game: self.game.register_player(fresh, name, now),
                ..self
            },
            ServerCmdView::AddConnection(connection, player) => SessionView {
                connections: self.connections.insert(connection, player),
                game: if self.game.players.contains_key(player) {
                    self.game
                } else {
                    self.game.register_player(player, guest_name(), now)
                },
                ..self
            },
            ServerCmdView::RemoveConnection(connection) => SessionView {
                connections: self.connections.remove(connection),
                game: if self.closes_last_connection(connection) {
                    self.game.remove_player(self.connections[connection])
                } else {
                    self.game
                },
                ..self
            },
            ServerCmdView::Fwd(player, cmd) => SessionView {
                game: self.forward(player, cmd, now),
                ..self
            },
        }
    }

    /// Whether `connection` is registered and its owner owns no other connection.
    pub open spec fn closes_last_connection(self, connection: ConnectionId)
        -> bool {
        self.connections.contains_key(connection) && !is_connected(
            self.connections.remove(connection),
            self.connections[connection],
        )
    }

    /// Why the command `cmd` is refused, if it is. A refused `Heartbeat` still runs the
    /// eviction; every other refused command changes nothing.
    pub open spec fn refusal(self, cmd: ServerCmdView) -> Option<GameError> {
        match cmd {
            ServerCmdView::Fwd(player, ClientCmdView::SetPlayerName(_)) => if self.game.players.contains_key(
                player,
            ) {
                None
            } else {
                Some(GameError::UnknownPlayer)
            },
            ServerCmdView::Fwd(player, ClientCmdView::SetPlayerCard(card)) => self.game.card_refusal(
                player,
                card,
            ),
            ServerCmdView::Fwd(player, ClientCmdView::Heartbeat) => if self.game.players.contains_key(
                player,
            ) {
                None
            } else {
                Some(GameError::UnknownPlayer)
            },
            ServerCmdView::Fwd(_, ClientCmdView::AdminChallenge(key)) => if key
                == self.admin_key {
                None
            } else {
                Some(GameError::InvalidAdminKey)
            },
            _ => None,
        }
    }

    /// The player whose connections get the admin confirmation for `cmd`, if anyone's
    /// do: the sender of an `AdminChallenge` with the right key.
    pub open spec fn confirms_admin(self, cmd: ServerCmdView) -> Option<PlayerId> {
        match cmd {
            ServerCmdView::Fwd(player, ClientCmdView::AdminChallenge(key)) => if key
                == self.admin_key {
                Some(player)
            } else {
                None
            },
            _ => None,
        }
    }

    /// Whether `outcome` is what comes out of the command `cmd`, arriving at `now` with
    /// `fresh` drawn for it, and `after` the session it leaves behind.
    ///
    /// - `after` is `self.step(cmd, now, fresh)`.
    /// - The refusal is `self.refusal(cmd)`.
    /// - The reply, for the issuer alone, is `PlayerRegistered` with the new id after a
    ///   `RegisterPlayer`, and nothing otherwise.
    /// - An `AdminChallenge` with the right key pushes `IsAdminUser` to the connections
    ///   of its sender, each once, and to no other.
    /// - A command that changes the observable state pushes one `StateChange` that
    ///   depicts the state after the command, to every connection then registered, each
    ///   once.
    /// - Nothing else is pushed.
    pub open spec fn handles(
        self,
        cmd: ServerCmdView,
        now: Timestamp,
        fresh: PlayerId,
        after: SessionView,
        outcome: OutcomeView,
    ) -> bool {
        &&& after == self.step(cmd, now, fresh)
        &&& outcome.refusal == self.refusal(cmd)
        &&& outcome.reply == if cmd is RegisterPlayer {
            Some(ServerPushView::PlayerRegistered { player_id: fresh })
        } else {
            None
        }
        &&& if let Some(admin) = self.confirms_admin(cmd) {
            &&& outcome.push matches Some(dispatch)
            &&& dispatch.push == ServerPushView::IsAdminUser
            &&& dispatch.recipients.no_duplicates()
            &&& dispatch.recipients.to_set() == connections_of(self.connections, admin)
        } else if after.game.observable() != self.game.observable() {
            &&& outcome.push matches Some(dispatch)
            &&& dispatch.push matches ServerPushView::StateChange { new_state }
            &&& new_state.depicts(after.game, now, PLAYER_IDLE_THRESHOLD)
            &&& dispatch.recipients.no_duplicates()
            &&& dispatch.recipients.to_set() == after.connections.dom()
        } else {
            outcome.push is None
        }
    }
}

/// What comes out of one command.
#[derive(Debug)]
pub struct Outcome {
    /// The answer for the issuer of the command alone.
    pub reply: Option<ServerPush>,
    /// The push that the command causes, with the connections to deliver it to.
    pub push: Option<Dispatch>,
    /// Why the command was refused, if it was: something for the log.
    pub refusal: Option<GameError>,
}

/// What an `Outcome` is, mathematically.
pub struct OutcomeView {
    pub reply: Option<ServerPushView>,
    pub push: Option<DispatchView>,
    pub refusal: Option<GameError>,
}

impl View for Outcome {
    type V = OutcomeView;

    open spec fn view(&self) -> OutcomeView {
        OutcomeView {
            reply: match self.reply {
                Some(push) => Some(push@),
                None => None,
            },
            push: match self.push {
                Some(dispatch) => Some(dispatch@),
                None => None,
            },
            refusal: self.refusal,
        }
    }
}

/// Holds the state of one play session: the admin key, the game, and which connection
/// belongs to which player.
#[derive(Debug)]
pub struct PlaySession {
    /// Used to check whether a client has extra privileges.
    admin_key: AdminKey,
    /// The names and card selections of each player.
    game_state: GameState,
    /// Inventory of live connections, and which players are "on the line".
    connections: ConnectionRegistry,
    /// Players that fail to send a heartbeat within this time are dropped from the game.
    max_idle: u64,
}

impl View for PlaySession {
    type V = SessionView;

    closed spec fn view(&self) -> SessionView {
        SessionView {
            admin_key: self.admin_key@,
            game: self.game_state@,
            connections: self.connections@,
            max_idle: self.max_idle,
        }
    }
}

impl PlaySession {
    /// A session that nobody has joined yet, played with the deck `deck_type`. Players
    /// are evicted once their last heartbeat is `disconnect_timeout` milliseconds old.
    pub fn new(admin_key: AdminKey, deck_type: DeckType, disconnect_timeout: u64) -> (session:
        PlaySession)
        ensures
            session@ == (SessionView {
                admin_key: admin_key@,
                game: GameView::empty(deck_type),
                connections: Map::empty(),
                max_idle: disconnect_timeout,
            }),
            session@.wf(),
    {
        PlaySession {
            admin_key,
            game_state: GameState::new(deck_type),
            connections: ConnectionRegistry::new(),
            max_idle: disconnect_timeout,
        }
    }

    /// Applies one command, arriving at `now`, and says what comes out of it. `fresh` is
    /// the id for the player that `RegisterPlayer` creates.
    pub fn handle_with_id(&mut self, msg: ServerCmd, now: Timestamp, fresh: PlayerId) -> (outcome:
        Outcome)
        ensures
            old(self)@.wf() ==> final(self)@.wf(),
            old(self)@.handles(msg@, now, fresh, final(self)@, outcome@),
    {
        let mut reply: Option<ServerPush> = None;
        let mut refusal: Option<GameError> = None;
        let mut changed = false;
        let mut admin: Option<PlayerId> = None;
        match msg {
            ServerCmd::RegisterPlayer(name) => {
                changed = self.game_state.register_player(fresh, name, now);
                reply = Some(ServerPush::PlayerRegistered { player_id: fresh });
            },
            ServerCmd::AddConnection(connection, player) => {
                self.connections.add(connection, player);
                if !self.game_state.contains(player) {
                    changed =
                    self.game_state.register_player(player, String::from_str("Guest"), now);
                }
            },
            ServerCmd::RemoveConnection(connection) => {
                match self.connections.remove(connection) {
                    Some(owner) => {
                        if !self.connections.is_connected(owner) {
                            changed = self.game_state.remove_player(owner);
                        }
                    },
                    None => {},
                }
            },
            ServerCmd::Fwd(player, cmd) => {
                match cmd {
                    ClientCmd::SetPlayerName(name) => {
                        match self.game_state.rename_player(player, name) {
                            Ok(renamed) => {
                                changed = renamed;
                            },
                            Err(error) => {
                                refusal = Some(error);
                            },
                        }
                    },
                    ClientCmd::SetPlayerCard(card) => {
                        match self.game_state.set_player_card(player, card) {
                            Ok(selected) => {
                                changed = selected;
                            },
                            Err(error) => {
                                refusal = Some(error);
                            },
                        }
                    },
                    ClientCmd::RemovePlayer => {
                        changed = self.game_state.remove_player(player);
                    },
                    ClientCmd::AdminChallenge(key) => {
                        if key == self.admin_key {
                            admin = Some(player);
                        } else {
                            refusal = Some(GameError::InvalidAdminKey);
                        }
                    },
                    ClientCmd::Call => {
                        changed = self.game_state.set_calling(true);
                    },
                    ClientCmd::Resume => {
                        changed = self.game_state.set_calling(false);
                    },
                    ClientCmd::Reset => {
                        changed = self.game_state.reset();
                    },
                    ClientCmd::Heartbeat => {
                        match self.game_state.touch_heartbeat(player, now) {
                            Ok(()) => {},
                            Err(error) => {
                                refusal = Some(error);
                            },
                        }
                        changed = self.game_state.evict_idle(now, self.max_idle);
                    },
                }
            },
        }
        let push = match admin {
            Some(player) => Some(self.connections.push_to(player, ServerPush::IsAdminUser)),
            None => {
                if changed {
                    let new_state = self.game_state.snapshot(now, PLAYER_IDLE_THRESHOLD);
                    Some(self.connections.push_to_all(ServerPush::StateChange { new_state }))
                } else {
                    None
                }
            },
        };
        Outcome { reply, push, refusal }
    }

    /// Applies one command, arriving at `now`, and says what comes out of it. The id of
    /// a player that `RegisterPlayer` creates is drawn at random, and comes back in the
    /// reply.
    pub fn handle(&mut self, msg: ServerCmd, now: Timestamp) -> (outcome: Outcome)
        ensures
            old(self)@.wf() ==> final(self)@.wf(),
            match outcome@.reply {
                Some(ServerPushView::PlayerRegistered { player_id }) => {
                    &&& player_id & RANDOM_ID_MASK == RANDOM_ID_TAG
                    &&& old(self)@.handles(msg@, now, player_id, final(self)@, outcome@)
                },
                _ => forall|fresh: PlayerId|
                    old(self)@.handles(msg@, now, fresh, final(self)@, outcome@),
            },
    {
        let fresh = match msg {
            ServerCmd::RegisterPlayer(_) => Player::next_id(),
            _ => 0,
        };
        self.handle_with_id(msg, now, fresh)
    }

    /// Whether `key` is the session's admin key.
    pub fn admin_challenge(&self, key: &str) -> (confirmed: bool)
        ensures
            confirmed == (key@ == self@.admin_key),
    {
        String::from_str(key) == self.admin_key
    }

    /// The deck the session is played with.
    pub fn deck(&self) -> (deck: DeckType)
        ensures
            deck == self@.game.deck,
    {
        self.game_state.deck()
    }

    /// The labels of the session's deck, in deck order.
    pub fn cards(&self) -> (cards: &'static [&'static str])
        ensures
            cards@.len() == self@.game.deck.size(),
            forall|i: int|
                0 <= i < cards@.len() ==> (#[trigger] cards@[i])@ == self@.game.deck.labels()[i],
    {
        self.game_state.deck().cards()
    }

    /// Whether the round is being called.
    pub fn is_calling(&self) -> (calling: bool)
        ensures
            calling == self@.game.is_calling,
    {
        self.game_state.is_calling()
    }

    /// The full picture of the game at `now`.
    pub fn game_state(&self, now: Timestamp) -> (picture: Snapshot)
        ensures
            picture@.depicts(self@.game, now, PLAYER_IDLE_THRESHOLD),
    {
        self.game_state.snapshot(now, PLAYER_IDLE_THRESHOLD)
    }

    /// Player `id` as a snapshot taken at `now` shows it, if it is in the game.
    pub fn player(&self, id: PlayerId, now: Timestamp) -> (shown: Option<PlayerSnapshot>)
        ensures
            match shown {
                Some(p) => self@.game.players.contains_key(id) && p@
                    == PlayerSnapshotView::of(
                    id,
                    self@.game.players[id],
                    now,
                    PLAYER_IDLE_THRESHOLD,
                ),
                None => !self@.game.players.contains_key(id),
            },
    {
        match self.game_state.player(id) {
            Some(player) => Some(
                PlayerSnapshot::from_player(id, &player, now, PLAYER_IDLE_THRESHOLD),
            ),
            None => None,
        }
    }

    /// The name of player `id`, if it is in the game.
    pub fn player_name(&self, id: PlayerId) -> (name: Option<String>)
        ensures
            match name {
                Some(name) => self@.game.players.contains_key(id) && name@
                    == self@.game.players[id].name,
                None => !self@.game.players.contains_key(id),
            },
    {
        match self.game_state.player(id) {
            Some(player) => Some(player.name),
            None => None,
        }
    }

    /// The player that owns `connection`, if the connection is registered.
    pub fn owner(&self, connection: ConnectionId) -> (owner: Option<PlayerId>)
        ensures
            match owner {
                Some(player) => self@.connections.contains_key(connection)
                    && self@.connections[connection] == player,
                None => !self@.connections.contains_key(connection),
            },
    {
        self.connections.owner(connection)
    }

    /// The event that a subscription starts with, whenever it attaches: the game as it
    /// is at `now`. What was pushed before is not repeated.
    pub fn subscribe(&self, now: Timestamp) -> (seed: ServerPush)
        ensures
            seed@ matches ServerPushView::StateChange { new_state } && new_state.depicts(
                self@.game,
                now,
                PLAYER_IDLE_THRESHOLD,
            ),
    {
        ServerPush::StateChange { new_state: self.game_state(now) }
    }

    /// Addresses the game as it is at `now` to every registered connection.
    pub fn notify_subscribers(&self, now: Timestamp) -> (dispatch: Dispatch)
        ensures
            dispatch@.push matches ServerPushView::StateChange { new_state } && new_state.depicts(
                self@.game,
                now,
                PLAYER_IDLE_THRESHOLD,
            ),
            dispatch@.recipients.no_duplicates(),
            dispatch@.recipients.to_set() == self@.connections.dom(),
    {
        self.connections.push_to_all(self.subscribe(now))
    }
}

} // verus!