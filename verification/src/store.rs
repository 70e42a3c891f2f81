//! A store for a game that is played in one place, without a server: it holds the
//! game and reduces requests into it, under the same rules as a session.

use crate::deck::DeckType;
use crate::game::{GameState, GameView};
use crate::player::{PlayerId, Timestamp};
use crate::snapshot::Snapshot;
use vstd::prelude::*;

verus! {

/// The requests that the store reduces.
#[derive(Debug)]
pub enum Request {
    InitClient(PlayerId),
    InitAdminClient(PlayerId),
    /// Register a new player.
    AddPlayer(PlayerId, String),
    /// Change a player's name.
    RenamePlayer(PlayerId, String),
    /// Select or deselect a card.
    ChangePlayerCard(PlayerId, Option<usize>),
    /// Player removed from the game.
    RemovePlayer(PlayerId),
    /// Game is "paused" and all player cards are shown.
    Call,
    /// Game continues, players can alter their selections while cards are hidden.
    Resume,
    /// Same as "resume" but all player card selections are cleared.
    Reset,
}

/// What a `Request` is, mathematically.
pub enum RequestView {
    InitClient(PlayerId),
    InitAdminClient(PlayerId),
    AddPlayer(PlayerId, Seq<char>),
    RenamePlayer(PlayerId, Seq<char>),
    ChangePlayerCard(PlayerId, Option<usize>),
    RemovePlayer(PlayerId),
    Call,
    Resume,
    Reset,
}

impl View for Request {
    type V = RequestView;

    open spec fn view(&self) -> RequestView {
        match self {
            Request::InitClient(id) => RequestView::InitClient(*id),
            Request::InitAdminClient(id) => RequestView::InitAdminClient(*id),
            Request::AddPlayer(id, name) => RequestView::AddPlayer(*id, name@),
            Request::RenamePlayer(id, name) => RequestView::RenamePlayer(*id, name@),
            Request::ChangePlayerCard(id, card) => RequestView::ChangePlayerCard(*id, *card),
            Request::RemovePlayer(id) => RequestView::RemovePlayer(*id),
            Request::Call => RequestView::Call,
            Request::Resume => RequestView::Resume,
            Request::Reset => RequestView::Reset,
        }
    }
}

/// What a `PlanningPokerStore` is, mathematically.
pub struct StoreView {
    pub game: GameView,
    /// Whether the client knows the secret key for the session.
    pub is_admin: bool,
}

/// The heartbeat that the store notes for its players: it keeps no time.
pub const STORE_TIME: Timestamp = 0;

impl StoreView {
    /// The store after the request `msg`.
    pub open spec fn reduce(self, msg: RequestView) -> StoreView {
        match msg {
            RequestView::InitClient(_) => self,
            RequestView::InitAdminClient(_) => StoreView { is_admin: true, ..self },
            RequestView::AddPlayer(id, name) => StoreView {
                game: self.game.register_player(id, name, STORE_TIME),
                ..self
            },
            RequestView::RenamePlayer(id, name) => StoreView {
                game: self.game.rename_player(id, name),
                ..self
            },
            RequestView::ChangePlayerCard(id, card) => StoreView {
                game: self.game.set_player_card(id, card),
                ..self
            },
            RequestView::RemovePlayer(id) => StoreView {
                game: self.game.remove_player(id),
                ..self
            },
            RequestView::Call => StoreView { game: self.game.set_calling(true), ..self },
            RequestView::Resume => StoreView { game: self.game.set_calling(false), ..self },
            RequestView::Reset => StoreView { game: self.game.reset(), ..self },
        }
    }

    /// Whether anything that a view of the store shows differs between the two.
    pub open spec fn differs_from(self, other: StoreView) -> bool {
        self.game.observable() != other.game.observable() || self.is_admin != other.is_admin
    }
}

/// Holds a game that is played in one place.
#[derive(Debug)]
pub struct PlanningPokerStore {
    game: GameState,
    is_admin: bool,
}

impl View for PlanningPokerStore {
    type V = StoreView;

    closed spec fn view(&self) -> StoreView {
        StoreView { game: self.game@, is_admin: self.is_admin }
    }
}

impl PlanningPokerStore {
    /// The labels of the cards that the store's game is played with.
    pub const CARDS: [&'static str; 12] = crate::deck::CARDS;

    /// An empty store, played with the Fibonacci deck, whose client is no admin.
    pub fn new() -> (store: PlanningPokerStore)
        ensures
            store@ == (StoreView { game: GameView::empty(DeckType::Fibonacci), is_admin: false }),
            store@.game.wf(),
    {
        PlanningPokerStore { game: GameState::new(DeckType::Fibonacci), is_admin: false }
    }

    /// Applies the request `msg`. Returns whether anything that a view of the store
    /// shows has changed.
    pub fn reduce(&mut self, msg: Request) -> (changed: bool)
        ensures
            final(self)@ == old(self)@.reduce(msg@),
            old(self)@.game.wf() ==> final(self)@.game.wf(),
            changed == final(self)@.differs_from(old(self)@),
    {
        match msg {
            Request::InitClient(_) => false,
            Request::InitAdminClient(_) => {
                let changed = !self.is_admin;
                self.is_admin = true;
                changed
            },
            Request::AddPlayer(id, name) => self.game.register_player(id, name, STORE_TIME),
            Request::RenamePlayer(id, name) => match self.game.rename_player(id, name) {
                Ok(changed) => changed,
                Err(_) => false,
            },
            Request::ChangePlayerCard(id, card) => match self.game.set_player_card(id, card) {
                Ok(changed) => changed,
                Err(_) => false,
            },
            Request::RemovePlayer(id) => self.game.remove_player(id),
            Request::Call => self.game.set_calling(true),
            Request::Resume => self.game.set_calling(false),
            Request::Reset => self.game.reset(),
        }
    }

    /// Whether the client knows the secret key for the session.
    pub fn is_admin(&self) -> (admin: bool)
        ensures
            admin == self@.is_admin,
    {
        self.is_admin
    }

    /// Whether the round is being called.
    pub fn is_calling(&self) -> (calling: bool)
        ensures
            calling == self@.game.is_calling,
    {
        self.game.is_calling()
    }

    /// The full picture of the game. Nobody is shown as idle: the store keeps no time.
    pub fn snapshot(&self) -> (picture: Snapshot)
        ensures
            picture@.depicts(self@.game, STORE_TIME, 0),
    {
        self.game.snapshot(STORE_TIME, 0)
    }
}

} // verus!
