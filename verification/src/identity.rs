//! Session identity: which player a browser session speaks for.
//!
//! A browser session remembers a player id and a display name. What it does not
//! remember yet is made up here, and has to be written back to it.

use crate::player::{Player, PlayerId, RANDOM_ID_MASK, RANDOM_ID_TAG};
use crate::session::{guest_name, PlaySession};
use vstd::prelude::*;
use vstd::string::StringExecFns;

verus! {

/// The player a browser session speaks for.
#[derive(Debug)]
pub struct SessionIdentity {
    pub name: String,
    pub id: PlayerId,
}

impl Clone for SessionIdentity {
    fn clone(&self) -> (copy: Self)
        ensures
            copy.id == self.id,
            copy.name@ == self.name@,
    {
        SessionIdentity { name: self.name.clone(), id: self.id }
    }
}

/// An identity, and which parts of it the browser session does not hold yet.
#[derive(Debug)]
pub struct ResolvedIdentity {
    pub identity: SessionIdentity,
    /// The id was made up and has to be written to the browser session.
    pub id_is_new: bool,
    /// The name was made up and has to be written to the browser session.
    pub name_is_new: bool,
}

impl SessionIdentity {
    /// The identity of a browser session that remembers `stored_id` and `stored_name`:
    /// what it remembers is kept, a missing id becomes `fresh`, a missing name becomes
    /// `Guest`.
    pub fn resolve(stored_id: Option<PlayerId>, stored_name: Option<String>, fresh: PlayerId)
        -> (resolved: ResolvedIdentity)
        ensures
            resolved.identity.id == match stored_id {
                Some(id) => id,
                None => fresh,
            },
            resolved.identity.name@ == match stored_name {
                Some(name) => name@,
                None => guest_name(),
            },
            resolved.id_is_new == (stored_id is None),
            resolved.name_is_new == (stored_name is None),
    {
        let id_is_new = stored_id.is_none();
        let name_is_new = stored_name.is_none();
        let id = match stored_id {
            Some(id) => id,
            None => fresh,
        };
        let name = match stored_name {
            Some(name) => name,
            None => String::from_str("Guest"),
        };
        ResolvedIdentity { identity: SessionIdentity { name, id }, id_is_new, name_is_new }
    }

    /// The name that the browser session should remember from now on, if the session
    /// knows this player under another name than the identity says.
    pub fn name_to_remember(&self, session: &PlaySession) -> (update: Option<String>)
        ensures
            match update {
                Some(name) => {
                    &&& session@.game.players.contains_key(self.id)
                    &&& name@ == session@.game.players[self.id].name
                    &&& name@ != self.name@
                },
                None => session@.game.players.contains_key(self.id)
                    ==> session@.game.players[self.id].name == self.name@,
            },
    {
        match session.player_name(self.id) {
            Some(name) => if name == self.name {
                None
            } else {
                Some(name)
            },
            None => None,
        }
    }
}

/// The identity of a browser session that remembers `stored_id` and `stored_name`. What
/// it remembers is kept; a missing id is drawn at random, a missing name becomes
/// `Guest`.
pub fn get_session_identity(stored_id: Option<PlayerId>, stored_name: Option<String>) -> (resolved:
    ResolvedIdentity)
    ensures
        match stored_id {
            Some(id) => resolved.identity.id == id,
            None => resolved.identity.id & RANDOM_ID_MASK == RANDOM_ID_TAG,
        },
        resolved.identity.name@ == match stored_name {
            Some(name) => name@,
            None => guest_name(),
        },
        resolved.id_is_new == (stored_id is None),
        resolved.name_is_new == (stored_name is None),
{
    let fresh = match stored_id {
        Some(id) => id,
        None => Player::next_id(),
    };
    SessionIdentity::resolve(stored_id, stored_name, fresh)
}

} // verus!
