//! The deck catalog: the fixed lists of card labels a session can be played with.

use vstd::prelude::*;
use vstd::string::StringExecFns;

verus! {

/// The deck that `name` names: `fib` and the empty name stand for the Fibonacci deck,
/// `days` for the days deck, and no other name for any.
pub open spec fn deck_named(name: Seq<char>) -> Option<DeckType> {
    if name == "fib"@ || name == ""@ {
        Some(DeckType::Fibonacci)
    } else if name == "days"@ {
        Some(DeckType::Days)
    } else {
        None
    }
}

/// The text that rejects `given` as the name of a deck.
pub open spec fn invalid_deck_message(given: Seq<char>) -> Seq<char> {
    "Invalid deck type: `"@ + given + "`. Use `fib` or `days`."@
}

/// The labels of the Fibonacci deck, in deck order.
pub const FIB_DECK: [&'static str; 12] = [
    "0", "1", "2", "3", "5", "8", "13", "21", "100", "∞", "?", "☕",
];

/// The labels of the deck that is played when nothing else is configured.
pub const CARDS: [&'static str; 12] = FIB_DECK;

/// The labels of the "days" deck, in deck order.
pub const DAYS_DECK: [&'static str; 9] = ["0.5", "1", "1.5", "2", "3", "5", "∞", "?", "☕"];

/// The deck variants a session can be configured with.
#[derive(Debug, Clone, Copy, PartialEq, Eq, Structural)]
pub enum DeckType {
    Fibonacci,
    Days,
}

impl DeckType {
    /// The labels of this deck, in deck order.
    pub open spec fn labels(self) -> Seq<Seq<char>> {
        match self {
            DeckType::Fibonacci => seq![
                "0"@, "1"@, "2"@, "3"@, "5"@, "8"@, "13"@, "21"@, "100"@, "∞"@, "?"@, "☕"@,
            ],
            DeckType::Days => seq!["0.5"@, "1"@, "1.5"@, "2"@, "3"@, "5"@, "∞"@, "?"@, "☕"@],
        }
    }

    /// The number of cards in this deck.
    pub open spec fn size(self) -> nat {
        match self {
            DeckType::Fibonacci => 12,
            DeckType::Days => 9,
        }
    }

    /// The number of cards in this deck.
    pub fn len(&self) -> (n: usize)
        ensures
            n == self.size(),
    {
        match self {
            DeckType::Fibonacci => 12,
            DeckType::Days => 9,
        }
    }

    /// The labels of this deck as a slice, in deck order.
    pub fn cards(&self) -> (cards: &'static [&'static str])
        ensures
            cards@.len() == self.size(),
            forall|i: int| 0 <= i < cards@.len() ==> (#[trigger] cards@[i])@ == self.labels()[i],
    {
        match self {
            DeckType::Fibonacci => &FIB_DECK,
            DeckType::Days => &DAYS_DECK,
        }
    }

    /// Reads a deck name: `fib` or the empty string name the Fibonacci deck, `days` the
    /// days deck; anything else is rejected with a message that quotes it.
    pub fn from_str(s: &str) -> (parsed: Result<DeckType, String>)
        ensures
            match deck_named(s@) {
                Some(deck) => parsed == Ok::<DeckType, String>(deck),
                None => parsed is Err && parsed->Err_0@ == invalid_deck_message(s@),
            },
    {
        proof {
            reveal_strlit("fib");
            reveal_strlit("");
            reveal_strlit("days");
            assert("fib"@.len() == 3 && ""@.len() == 0 && "days"@.len() == 4);
        }
        let given = String::from_str(s);
        if given == String::from_str("fib") || given == String::from_str("") {
            Ok(DeckType::Fibonacci)
        } else if given == String::from_str("days") {
            Ok(DeckType::Days)
        } else {
            let mut message = String::from_str("Invalid deck type: `");
            message.append(s);
            message.append("`. Use `fib` or `days`.");
            Err(message)
        }
    }

    /// The label of the card at `index`, or `None` when the deck has no such card.
    pub fn label(&self, index: usize) -> (label: Option<&'static str>)
        ensures
            index < self.size() ==> label is Some && label->0@ == self.labels()[index as int],
            index >= self.size() ==> label is None,
    {
        match self {
            DeckType::Fibonacci => if index < 12 { Some(FIB_DECK[index]) } else { None },
            DeckType::Days => if index < 9 { Some(DAYS_DECK[index]) } else { None },
        }
    }
}

impl std::str::FromStr for DeckType {
    type Err = String;

    /// Reads a deck name, as `DeckType::from_str` does: the deck that the name stands
    /// for, or the message that rejects the name.
    fn from_str(s: &str) -> (parsed: Result<Self, Self::Err>)
        ensures
            match deck_named(s@) {
                Some(deck) => parsed == Ok::<DeckType, String>(deck),
                None => parsed is Err && parsed->Err_0@ == invalid_deck_message(s@),
            },
    {
        DeckType::from_str(s)
    }
}

} // verus!
