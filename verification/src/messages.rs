//! The messages that cross the session's boundary: commands in, pushes out.

use crate::player::PlayerId;
use crate::registry::ConnectionId;
use crate::snapshot::{selection_from_i32, Snapshot, SnapshotView};
use vstd::prelude::*;

verus! {

/// What a client can ask for. The session learns which player is asking from the
/// `ServerCmd::Fwd` that carries the command.
#[derive(Debug)]
pub enum ClientCmd {
    SetPlayerName(String),
    /// A click on a card; `None` asks to clear the selection.
    SetPlayerCard(Option<usize>),
    RemovePlayer,
    /// The client offers a key; if it is the session's admin key, the session answers
    /// with `ServerPush::IsAdminUser`.
    AdminChallenge(String),
    Call,
    Resume,
    Reset,
    Heartbeat,
}

impl ClientCmd {
    /// The click on a card that a transport carries as a signed 32-bit index. A
    /// negative index asks for a card that no deck has.
    pub fn set_player_card_i32(card: Option<i32>) -> (cmd: ClientCmd)
        ensures
            cmd@ == ClientCmdView::SetPlayerCard(selection_from_i32(card)),
    {
        ClientCmd::SetPlayerCard(
            match card {
                Some(index) => if index >= 0 {
                    Some(index as usize)
                } else {
                    Some(usize::MAX)
                },
                None => None,
            },
        )
    }
}

/// What a `ClientCmd` is, mathematically.
pub enum ClientCmdView {
    SetPlayerName(Seq<char>),
    SetPlayerCard(Option<usize>),
    RemovePlayer,
    AdminChallenge(Seq<char>),
    Call,
    Resume,
    Reset,
    Heartbeat,
}

impl View for ClientCmd {
    type V = ClientCmdView;

    open spec fn view(&self) -> ClientCmdView {
        match self {
            ClientCmd::SetPlayerName(name) => ClientCmdView::SetPlayerName(name@),
            ClientCmd::SetPlayerCard(card) => ClientCmdView::SetPlayerCard(*card),
            ClientCmd::RemovePlayer => ClientCmdView::RemovePlayer,
            ClientCmd::AdminChallenge(key) => ClientCmdView::AdminChallenge(key@),
            ClientCmd::Call => ClientCmdView::Call,
            ClientCmd::Resume => ClientCmdView::Resume,
            ClientCmd::Reset => ClientCmdView::Reset,
            ClientCmd::Heartbeat => ClientCmdView::Heartbeat,
        }
    }
}

/// The commands that the session processes, one at a time.
#[derive(Debug)]
pub enum ServerCmd {
    /// Creates a player with the given name under a freshly drawn id.
    RegisterPlayer(String),
    /// A connection was accepted and belongs to the given player. A player that is not
    /// in the game yet joins it as `Guest`. A connection id that is already registered
    /// changes hands; its previous owner stays in the game.
    AddConnection(ConnectionId, PlayerId),
    /// A connection was closed. When it was the last one of its owner, the owner leaves
    /// the game.
    RemoveConnection(ConnectionId),
    /// A command of a client, together with the player it comes from.
    Fwd(PlayerId, ClientCmd),
}

/// What a `ServerCmd` is, mathematically.
pub enum ServerCmdView {
    RegisterPlayer(Seq<char>),
    AddConnection(ConnectionId, PlayerId),
    RemoveConnection(ConnectionId),
    Fwd(PlayerId, ClientCmdView),
}

impl View for ServerCmd {
    type V = ServerCmdView;

    open spec fn view(&self) -> ServerCmdView {
        match self {
            ServerCmd::RegisterPlayer(name) => ServerCmdView::RegisterPlayer(name@),
            ServerCmd::AddConnection(connection, player) => ServerCmdView::AddConnection(
                *connection,
                *player,
            ),
            ServerCmd::RemoveConnection(connection) => ServerCmdView::RemoveConnection(
                *connection,
            ),
            ServerCmd::Fwd(player, cmd) => ServerCmdView::Fwd(*player, cmd@),
        }
    }
}

/// What the session sends to clients.
#[derive(Debug)]
pub enum ServerPush {
    /// Tells a client the id of the player that was created for it.
    PlayerRegistered { player_id: PlayerId },
    /// Carries the full picture of the game after a change.
    StateChange { new_state: Snapshot },
    /// Confirms that a client knows the admin key.
    IsAdminUser,
}

/// What a `ServerPush` is, mathematically.
pub enum ServerPushView {
    PlayerRegistered { player_id: PlayerId },
    StateChange { new_state: SnapshotView },
    IsAdminUser,
}

impl View for ServerPush {
    type V = ServerPushView;

    open spec fn view(&self) -> ServerPushView {
        match self {
            ServerPush::PlayerRegistered { player_id } => ServerPushView::PlayerRegistered {
                player_id: *player_id,
            },
            ServerPush::StateChange { new_state } => ServerPushView::StateChange {
                new_state: new_state@,
            },
            ServerPush::IsAdminUser => ServerPushView::IsAdminUser,
        }
    }
}

impl Clone for ServerPush {
    fn clone(&self) -> (copy: Self)
        ensures
            copy@ == self@,
    {
        match self {
            ServerPush::PlayerRegistered { player_id } => ServerPush::PlayerRegistered {
                player_id: *player_id,
            },
            ServerPush::StateChange { new_state } => ServerPush::StateChange {
                new_state: new_state.clone(),
            },
            ServerPush::IsAdminUser => ServerPush::IsAdminUser,
        }
    }
}

/// What the session hands to a connection for delivery.
#[derive(Debug)]
pub enum SocketResponse {
    StateChange(Snapshot),
    ConfirmAdminKey,
}

impl SocketResponse {
    /// The push that tells a client of this response.
    pub fn into_push(self) -> (push: ServerPush)
        ensures
            push@ == match self {
                SocketResponse::StateChange(new_state) => ServerPushView::StateChange {
                    new_state: new_state@,
                },
                SocketResponse::ConfirmAdminKey => ServerPushView::IsAdminUser,
            },
    {
        match self {
            SocketResponse::StateChange(new_state) => ServerPush::StateChange { new_state },
            SocketResponse::ConfirmAdminKey => ServerPush::IsAdminUser,
        }
    }
}

/// A push together with the connections it is addressed to.
#[derive(Debug)]
pub struct Dispatch {
    /// The connections to deliver to, each once, in no particular order.
    pub recipients: Vec<ConnectionId>,
    pub push: ServerPush,
}

/// What a `Dispatch` is, mathematically.
pub struct DispatchView {
    pub recipients: Seq<ConnectionId>,
    pub push: ServerPushView,
}

impl View for Dispatch {
    type V = DispatchView;

    open spec fn view(&self) -> DispatchView {
        DispatchView { recipients: self.recipients@, push: self.push@ }
    }
}

} // verus!
