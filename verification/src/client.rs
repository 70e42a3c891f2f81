//! The client's side of the conversation: what a client remembers of the session, how
//! it takes in what the session pushes, and what it asks for.
//!
//! `App::update` decides; it neither draws nor sends. Whoever runs the client sends the
//! command that comes back and redraws when told to.

use crate::deck::DeckType;
use crate::messages::{ClientCmd, ClientCmdView, ServerPush, ServerPushView};
use crate::player::PlayerId;
use crate::snapshot::{PlayerSnapshotView, Snapshot, SnapshotView};
use vstd::prelude::*;
use vstd::string::StringExecFns;

verus! {

/// What became of the client's connection to the session.
#[derive(Debug, Clone, Copy, PartialEq, Eq, Structural)]
pub enum SocketStatus {
    Opened,
    Closed,
    Error,
}

/// What can happen to a client.
#[derive(Debug)]
pub enum Msg {
    /// The user clicked the card with this index.
    SelectCard(usize),
    /// The user entered a new display name.
    SetPlayerName(String),
    /// The user clicked the call button.
    ToggleCalling,
    /// The session pushed something.
    SocketRecv(ServerPush),
    /// The connection changed its status.
    SocketStatus(SocketStatus),
}

/// What a `Msg` is, mathematically.
pub enum MsgView {
    SelectCard(usize),
    SetPlayerName(Seq<char>),
    ToggleCalling,
    SocketRecv(ServerPushView),
    SocketStatus(SocketStatus),
}

impl View for Msg {
    type V = MsgView;

    open spec fn view(&self) -> MsgView {
        match self {
            Msg::SelectCard(index) => MsgView::SelectCard(*index),
            Msg::SetPlayerName(name) => MsgView::SetPlayerName(name@),
            Msg::ToggleCalling => MsgView::ToggleCalling,
            Msg::SocketRecv(push) => MsgView::SocketRecv(push@),
            Msg::SocketStatus(status) => MsgView::SocketStatus(*status),
        }
    }
}

/// What an `App` is, mathematically.
pub struct AppView {
    /// The id that the session gave this client, once it has.
    pub client_id: Option<PlayerId>,
    /// The admin key that the client was started with, if any.
    pub admin_key: Option<Seq<char>>,
    /// Whether the session confirmed that the client knows the admin key.
    pub is_admin: bool,
    /// The game as the session last pushed it.
    pub state: SnapshotView,
}

impl AppView {
    /// The client after `msg`.
    pub open spec fn update(self, msg: MsgView) -> AppView {
        match msg {
            MsgView::SocketRecv(ServerPushView::StateChange { new_state }) => AppView {
                state: new_state,
                ..self
            },
            MsgView::SocketRecv(ServerPushView::IsAdminUser) => AppView { is_admin: true, ..self },
            MsgView::SocketRecv(ServerPushView::PlayerRegistered { player_id }) => AppView {
                client_id: Some(player_id),
                ..self
            },
            _ => self,
        }
    }

    /// The client's own player as the session last showed it: `None` until the session
    /// has given the client an id and shown a player under it.
    pub open spec fn own_player(self) -> Option<PlayerSnapshotView> {
        match self.client_id {
            Some(id) => self.state.first_shown(id),
            None => None,
        }
    }

    /// What the client shows as a whole.
    pub open spec fn screen(self) -> Screen {
        if self.client_id is None {
            Screen::Connecting
        } else if self.own_player() is None {
            Screen::Blank
        } else {
            Screen::Table
        }
    }

    /// What the client asks of the session on `msg`: a click on the call button asks to
    /// resume when the round is being called, and to call when it is not; a connection
    /// that has just opened offers the admin key, if the client has one.
    pub open spec fn sends(self, msg: MsgView) -> Option<ClientCmdView> {
        match msg {
            MsgView::SelectCard(index) => Some(ClientCmdView::SetPlayerCard(Some(index))),
            MsgView::SetPlayerName(name) => Some(ClientCmdView::SetPlayerName(name)),
            MsgView::ToggleCalling => Some(
                if self.state.is_calling {
                    ClientCmdView::Resume
                } else {
                    ClientCmdView::Call
                },
            ),
            MsgView::SocketStatus(SocketStatus::Opened) => match self.admin_key {
                Some(key) => Some(ClientCmdView::AdminChallenge(key)),
                None => None,
            },
            _ => None,
        }
    }
}

/// What the client shows as a whole.
#[derive(Debug, Clone, Copy, PartialEq, Eq, Structural)]
pub enum Screen {
    /// The session has not given the client an id yet.
    Connecting,
    /// The client has an id, but the session shows no player under it.
    Blank,
    /// The table: everybody's cards, the name field, the card picker.
    Table,
}

/// One card of the card picker.
#[derive(Debug, Clone, Copy)]
pub struct CardButton {
    /// The index of the card in the deck.
    pub index: usize,
    /// The label of the card.
    pub label: &'static str,
    /// Whether this is the card that the client's player has selected.
    pub active: bool,
    /// Whether a click on the card asks for it: not while the round is being called.
    pub enabled: bool,
}

/// The address of the session's websocket, as seen from a page that was loaded with
/// `protocol` (`https:` or anything else) from `host`.
pub open spec fn socket_uri_of(protocol: Seq<char>, host: Seq<char>) -> Seq<char> {
    (if protocol == "https:"@ {
        "wss:"@
    } else {
        "ws:"@
    }) + "//"@ + host + "/ws"@
}

/// What the client has to do after an update.
#[derive(Debug)]
pub struct Reaction {
    /// Whether what the client shows has changed.
    pub should_render: bool,
    /// The command to send to the session, if any.
    pub send: Option<ClientCmd>,
}

/// What a client remembers of the session.
#[derive(Debug)]
pub struct App {
    client_id: Option<PlayerId>,
    admin_key: Option<String>,
    is_admin: bool,
    state: Snapshot,
}

impl View for App {
    type V = AppView;

    closed spec fn view(&self) -> AppView {
        AppView {
            client_id: self.client_id,
            admin_key: match self.admin_key {
                Some(key) => Some(key@),
                None => None,
            },
            is_admin: self.is_admin,
            state: self.state@,
        }
    }
}

impl App {
    /// A client that has not heard from the session yet. It is no admin, whether or not
    /// it has an admin key to offer.
    pub fn create(admin_key: Option<String>) -> (app: App)
        ensures
            app@ == (AppView {
                client_id: None,
                admin_key: match admin_key {
                    Some(key) => Some(key@),
                    None => None,
                },
                is_admin: false,
                state: SnapshotView { players: Seq::empty(), is_calling: false },
            }),
    {
        App { client_id: None, admin_key, is_admin: false, state: Snapshot::empty() }
    }

    /// Takes in `msg`: remembers what the session pushed, and says what to send and
    /// whether to draw again. The client draws again exactly when what it remembers has
    /// changed.
    pub fn update(&mut self, msg: Msg) -> (reaction: Reaction)
        ensures
            final(self)@ == old(self)@.update(msg@),
            reaction.should_render == (final(self)@ != old(self)@),
            match reaction.send {
                Some(cmd) => old(self)@.sends(msg@) == Some(cmd@),
                None => old(self)@.sends(msg@) is None,
            },
    {
        match msg {
            Msg::SocketStatus(status) => {
                let send = match status {
                    SocketStatus::Opened => match &self.admin_key {
                        Some(key) => Some(ClientCmd::AdminChallenge(key.clone())),
                        None => None,
                    },
                    _ => None,
                };
                Reaction { should_render: false, send }
            },
            Msg::SocketRecv(push) => {
                let should_render = match push {
                    ServerPush::StateChange { new_state } => {
                        let changed = !self.state.same_as(&new_state);
                        self.state = new_state;
                        changed
                    },
                    ServerPush::IsAdminUser => {
                        let changed = !self.is_admin;
                        self.is_admin = true;
                        changed
                    },
                    ServerPush::PlayerRegistered { player_id } => {
                        let changed = match self.client_id {
                            Some(id) => id != player_id,
                            None => true,
                        };
                        self.client_id = Some(player_id);
                        changed
                    },
                };
                Reaction { should_render, send: None }
            },
            Msg::SelectCard(index) => Reaction {
                should_render: false,
                send: Some(ClientCmd::SetPlayerCard(Some(index))),
            },
            Msg::SetPlayerName(name) => Reaction {
                should_render: false,
                send: Some(ClientCmd::SetPlayerName(name)),
            },
            Msg::ToggleCalling => {
                let cmd = if self.state.is_calling {
                    ClientCmd::Resume
                } else {
                    ClientCmd::Call
                };
                Reaction { should_render: false, send: Some(cmd) }
            },
        }
    }

    /// The id that the session gave this client, once it has.
    pub fn client_id(&self) -> (id: Option<PlayerId>)
        ensures
            id == self@.client_id,
    {
        self.client_id
    }

    /// Whether the session confirmed that the client knows the admin key.
    pub fn is_admin(&self) -> (admin: bool)
        ensures
            admin == self@.is_admin,
    {
        self.is_admin
    }

    /// Whether the round is being called, as far as the client knows.
    pub fn is_calling(&self) -> (calling: bool)
        ensures
            calling == self@.state.is_calling,
    {
        self.state.is_calling
    }

    /// The display name of the client's own player: `None` until the session has given
    /// the client an id and shown a player under it.
    pub fn get_player_name(&self) -> (name: Option<String>)
        ensures
            match name {
                Some(name) => self@.own_player() matches Some(own) && own.name == name@,
                None => self@.own_player() is None,
            },
    {
        match self.client_id {
            Some(id) => match self.state.find(id) {
                Some(shown) => Some(shown.name.clone()),
                None => None,
            },
            None => None,
        }
    }

    /// What the client shows as a whole: a notice while it waits for its id, nothing
    /// while the session shows no player under that id, and the table otherwise.
    pub fn screen(&self) -> (screen: Screen)
        ensures
            screen == self@.screen(),
    {
        match self.client_id {
            Some(id) => match self.state.find(id) {
                Some(_) => Screen::Table,
                None => Screen::Blank,
            },
            None => Screen::Connecting,
        }
    }

    /// Whether the call button is shown: to admins only.
    pub fn build_call_button(&self) -> (shown: bool)
        ensures
            shown == self@.is_admin,
    {
        self.is_admin
    }

    /// The card picker for a session played with `deck`: one button per card, in deck
    /// order, the selected card marked active, and every button disabled while the
    /// round is being called. `None` while the client has no player of its own.
    pub fn build_card_picker(&self, deck: DeckType) -> (picker: Option<Vec<CardButton>>)
        ensures
            match self@.own_player() {
                Some(own) => {
                    &&& picker matches Some(buttons)
                    &&& buttons@.len() == deck.size()
                    &&& forall|i: int|
                        0 <= i < buttons@.len() ==> {
                            let button = #[trigger] buttons@[i];
                            &&& button.index == i
                            &&& button.label@ == deck.labels()[i]
                            &&& button.active == (own.selected_card == Some(i as usize))
                            &&& button.enabled == !self@.state.is_calling
                        }
                },
                None => picker is None,
            },
    {
        let own = match self.client_id {
            Some(id) => match self.state.find(id) {
                Some(shown) => shown,
                None => {
                    return None;
                },
            },
            None => {
                return None;
            },
        };
        let cards = deck.cards();
        let mut buttons: Vec<CardButton> = Vec::new();
        let mut index: usize = 0;
        while index < cards.len()
            invariant
                index <= cards@.len(),
                cards@.len() == deck.size(),
                forall|i: int| 0 <= i < cards@.len() ==> (#[trigger] cards@[i])@ == deck.labels()[i],
                buttons@.len() == index,
                forall|i: int|
                    0 <= i < index ==> {
                        let button = #[trigger] buttons@[i];
                        &&& button.index == i
                        &&& button.label@ == deck.labels()[i]
                        &&& button.active == (own.selected_card == Some(i as usize))
                        &&& button.enabled == !self.state.is_calling
                    },
            decreases cards@.len() - index,
        {
            buttons.push(
                CardButton {
                    index,
                    label: cards[index],
                    active: own.selected_card == Some(index),
                    enabled: !self.state.is_calling,
                },
            );
            index += 1;
        }
        Some(buttons)
    }

    /// The address of the session's websocket, as seen from a page that was loaded with
    /// `protocol` from `host`: secure exactly when the page was.
    pub fn socket_uri(protocol: &str, host: &str) -> (uri: String)
        ensures
            uri@ == socket_uri_of(protocol@, host@),
    {
        let scheme = if String::from_str(protocol) == String::from_str("https:") {
            "wss:"
        } else {
            "ws:"
        };
        let mut uri = String::from_str(scheme);
        uri.append("//");
        uri.append(host);
        uri.append("/ws");
        uri
    }
}

} // verus!
