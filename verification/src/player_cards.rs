//! The player cards: the selections made by all players in the game.
//!
//! One card is shown for each player. What is decided here is what each card says;
//! whether the faces are revealed follows the calling flag.

use crate::deck::DeckType;
use crate::snapshot::{PlayerSnapshot, PlayerSnapshotView, Snapshot, SnapshotView};
use vstd::prelude::*;

verus! {

/// What the player cards are drawn from.
#[derive(Debug)]
pub struct Props {
    /// The game as the session last pushed it.
    pub state: Snapshot,
}

/// One player's card as it is drawn.
#[derive(Debug)]
pub struct Card {
    /// The name under the card.
    pub name: String,
    /// The label on the face of the card; empty while the player has not decided.
    pub face: &'static str,
    /// Whether the player has no card selected.
    pub undecided: bool,
}

/// What a `Card` is, mathematically.
pub struct CardView {
    pub name: Seq<char>,
    pub face: Seq<char>,
    pub undecided: bool,
}

impl View for Card {
    type V = CardView;

    open spec fn view(&self) -> CardView {
        CardView { name: self.name@, face: self.face@, undecided: self.undecided }
    }
}

/// The label on the face of a card: the label of the selected card in `deck`, and
/// nothing when no card of the deck is selected.
pub open spec fn face_of(selection: Option<usize>, deck: DeckType) -> Seq<char> {
    match selection {
        Some(card) if card < deck.size() => deck.labels()[card as int],
        _ => ""@,
    }
}

/// How `shown` is drawn in a session played with `deck`.
pub open spec fn card_of(shown: PlayerSnapshotView, deck: DeckType) -> CardView {
    CardView {
        name: shown.name,
        face: face_of(shown.selected_card, deck),
        undecided: shown.selected_card is None,
    }
}

impl PlayerSnapshot {
    /// How this player is drawn in a session played with `deck`.
    pub fn card(&self, deck: DeckType) -> (card: Card)
        ensures
            card@ == card_of(self@, deck),
    {
        let face = match self.selected_card {
            Some(index) => match deck.label(index) {
                Some(label) => label,
                None => "",
            },
            None => "",
        };
        Card { name: self.name.clone(), face, undecided: self.selected_card.is_none() }
    }
}

/// The cards of all players.
#[derive(Debug)]
pub struct PlayerCards {
    props: Props,
}

impl View for PlayerCards {
    type V = SnapshotView;

    closed spec fn view(&self) -> SnapshotView {
        self.props.state@
    }
}

impl PlayerCards {
    /// The cards of the players that `props` shows.
    pub fn create(props: Props) -> (cards: PlayerCards)
        ensures
            cards@ == props.state@,
    {
        PlayerCards { props }
    }

    /// Takes new props. Returns whether to draw again: whether they differ from the old
    /// ones.
    pub fn change(&mut self, props: Props) -> (should_render: bool)
        ensures
            final(self)@ == props.state@,
            should_render == (props.state@ != old(self)@),
    {
        let should_render = !self.props.state.same_as(&props.state);
        self.props = props;
        should_render
    }

    /// Whether the faces of the cards are revealed: while the round is being called.
    pub fn is_calling(&self) -> (calling: bool)
        ensures
            calling == self@.is_calling,
    {
        self.props.state.is_calling
    }

    /// One card per shown player, in the order in which the players are shown.
    pub fn cards(&self, deck: DeckType) -> (cards: Vec<Card>)
        ensures
            cards@.len() == self@.players.len(),
            forall|i: int|
                0 <= i < cards@.len() ==> (#[trigger] cards@[i])@ == card_of(
                    self@.players[i],
                    deck,
                ),
    {
        let mut cards: Vec<Card> = Vec::new();
        let mut i: usize = 0;
        while i < self.props.state.players.len()
            invariant
                i <= self.props.state.players.len(),
                cards@.len() == i,
                forall|k: int|
                    0 <= k < i ==> (#[trigger] cards@[k])@ == card_of(
                        self.props.state.players@[k]@,
                        deck,
                    ),
            decreases self.props.state.players.len() - i,
        {
            cards.push(self.props.state.players[i].card(deck));
            i += 1;
        }
        assert forall|k: int| 0 <= k < cards@.len() implies (#[trigger] cards@[k])@ == card_of(
            self@.players[k],
            deck,
        ) by {
            assert(self@.players[k] == self.props.state.players@[k]@);
        }
        cards
    }
}

} // verus!
