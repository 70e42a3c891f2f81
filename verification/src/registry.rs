//! The connection registry: which live connection belongs to which player.
//!
//! A player may hold any number of connections at once. The registry knows connections
//! by their ids only; whoever drives the session keeps the means to reach each one.

use crate::messages::{Dispatch, ServerPush};
use crate::player::PlayerId;
use std::collections::HashMap;
use vstd::prelude::*;
use vstd::std_specs::iter::IteratorSpec;

verus! {

/// Handle for one live connection, chosen by whoever accepts connections.
pub type ConnectionId = u64;

/// What a `ConnectionRegistry` is, mathematically: the owner of each connection.
pub type RegistryView = Map<ConnectionId, PlayerId>;

/// Whether `player` owns a connection in `registry`.
pub open spec fn is_connected(registry: RegistryView, player: PlayerId) -> bool {
    exists|c: ConnectionId| #[trigger] registry.contains_key(c) && registry[c] == player
}

/// The connections that `player` owns in `registry`.
pub open spec fn connections_of(registry: RegistryView, player: PlayerId) -> Set<ConnectionId> {
    Set::new(|c: ConnectionId| registry.contains_key(c) && registry[c] == player)
}

/// Tracks every live connection and the player it belongs to.
#[derive(Debug)]
pub struct ConnectionRegistry {
    owners: HashMap<ConnectionId, PlayerId>,
}

impl View for ConnectionRegistry {
    type V = RegistryView;

    closed spec fn view(&self) -> RegistryView {
        self.owners@
    }
}

impl ConnectionRegistry {
    /// A registry without connections.
    pub fn new() -> (registry: ConnectionRegistry)
        ensures
            registry@ == Map::<ConnectionId, PlayerId>::empty(),
    {
        ConnectionRegistry { owners: HashMap::new() }
    }

    /// The number of live connections.
    pub fn len(&self) -> (n: usize)
        ensures
            n == self@.len(),
            self@.dom().finite(),
    {
        broadcast use vstd::std_specs::hash::group_hash_axioms;
        self.owners.len()
    }

    /// The player that owns `connection`, if the connection is registered.
    pub fn owner(&self, connection: ConnectionId) -> (owner: Option<PlayerId>)
        ensures
            match owner {
                Some(player) => self@.contains_key(connection) && self@[connection] == player,
                None => !self@.contains_key(connection),
            },
    {
        broadcast use vstd::std_specs::hash::group_hash_axioms;
        match self.owners.get(&connection) {
            Some(player) => Some(*player),
            None => None,
        }
    }

    /// Registers `connection` as belonging to `player`. A connection that was already
    /// registered changes hands; its previous owner is returned.
    pub fn add(&mut self, connection: ConnectionId, player: PlayerId) -> (previous: Option<
        PlayerId,
    >)
        ensures
            final(self)@ == old(self)@.insert(connection, player),
            match previous {
                Some(owner) => old(self)@.contains_key(connection) && old(self)@[connection]
                    == owner,
                None => !old(self)@.contains_key(connection),
            },
    {
        broadcast use vstd::std_specs::hash::group_hash_axioms;
        self.owners.insert(connection, player)
    }

    /// Unregisters `connection` and returns the player that owned it; `None`, with
    /// nothing changed, when the connection was not registered.
    pub fn remove(&mut self, connection: ConnectionId) -> (owner: Option<PlayerId>)
        ensures
            final(self)@ == old(self)@.remove(connection),
            match owner {
                Some(player) => old(self)@.contains_key(connection) && old(self)@[connection]
                    == player,
                None => !old(self)@.contains_key(connection),
            },
    {
        broadcast use vstd::std_specs::hash::group_hash_axioms;
        self.owners.remove(&connection)
    }

    /// Every registered connection, each once, in no particular order.
    pub fn connections(&self) -> (recipients: Vec<ConnectionId>)
        ensures
            recipients@.no_duplicates(),
            recipients@.to_set() == self@.dom(),
    {
        broadcast use vstd::std_specs::hash::group_hash_axioms;
        let mut recipients: Vec<ConnectionId> = Vec::new();
        for connection in it: self.owners.keys()
            invariant
                it.seq() == self.owners.keys().remaining(),
                it.index() <= it.seq().len(),
                recipients@ == it.seq().take(it.index()).unref(),
        {
            recipients.push(*connection);
        }
        proof {
            let all = self.owners.keys().remaining();
            assert(all.take(all.len() as int) == all);
        }
        recipients
    }

    /// The connections that `player` owns, each once, in no particular order.
    pub fn connections_of(&self, player: PlayerId) -> (recipients: Vec<ConnectionId>)
        ensures
            recipients@.no_duplicates(),
            recipients@.to_set() == connections_of(self@, player),
    {
        broadcast use vstd::std_specs::hash::group_hash_axioms;
        let all = self.connections();
        let mut recipients: Vec<ConnectionId> = Vec::new();
        let mut i: usize = 0;
        while i < all.len()
            invariant
                i <= all.len(),
                all@.no_duplicates(),
                all@.to_set() == self@.dom(),
                recipients@.no_duplicates(),
                forall|k: int|
                    0 <= k < recipients@.len() ==> self@[#[trigger] recipients@[k]] == player
                        && exists|j: int| 0 <= j < i && #[trigger] all@[j] == recipients@[k],
                forall|j: int|
                    0 <= j < i && self@[#[trigger] all@[j]] == player ==> recipients@.contains(
                        all@[j],
                    ),
            decreases all.len() - i,
        {
            let connection = all[i];
            let ghost so_far = recipients@;
            match self.owners.get(&connection) {
                Some(owner) => {
                    if *owner == player {
                        recipients.push(connection);
                        assert forall|j: int|
                            0 <= j < i + 1 && self@[#[trigger] all@[j]]
                                == player implies recipients@.contains(all@[j]) by {
                            if j < i {
                                let k = choose|k: int|
                                    0 <= k < so_far.len() && so_far[k] == all@[j];
                                assert(recipients@[k] == all@[j]);
                            } else {
                                assert(recipients@[so_far.len() as int] == all@[j]);
                            }
                        }
                    }
                },
                None => {},
            }
            i += 1;
        }
        proof {
            assert forall|c: ConnectionId|
                recipients@.to_set().contains(c) <==> connections_of(self@, player).contains(
                    c,
                ) by {
                if recipients@.contains(c) {
                    let k = choose|k: int| 0 <= k < recipients@.len() && recipients@[k] == c;
                    let j = choose|j: int| 0 <= j < i && #[trigger] all@[j] == recipients@[k];
                    assert(all@.to_set().contains(all@[j]));
                }
                if self@.contains_key(c) && self@[c] == player {
                    let j = choose|j: int| 0 <= j < all@.len() && all@[j] == c;
                    assert(recipients@.contains(all@[j]));
                }
            }
        }
        recipients
    }

    /// Addresses `message` to every registered connection.
    pub fn push_to_all(&self, message: ServerPush) -> (dispatch: Dispatch)
        ensures
            dispatch@.push == message@,
            dispatch@.recipients.no_duplicates(),
            dispatch@.recipients.to_set() == self@.dom(),
    {
        Dispatch { recipients: self.connections(), push: message }
    }

    /// Addresses `message` to the connections that `player` owns, and to no other.
    pub fn push_to(&self, player: PlayerId, message: ServerPush) -> (dispatch: Dispatch)
        ensures
            dispatch@.push == message@,
            dispatch@.recipients.no_duplicates(),
            dispatch@.recipients.to_set() == connections_of(self@, player),
    {
        Dispatch { recipients: self.connections_of(player), push: message }
    }

    /// Whether `player` owns at least one connection.
    pub fn is_connected(&self, player: PlayerId) -> (connected: bool)
        ensures
            connected == is_connected(self@, player),
    {
        let owned = self.connections_of(player);
        proof {
            if owned@.len() > 0 {
                assert(connections_of(self@, player).contains(owned@[0]));
            } else {
                if is_connected(self@, player) {
                    let c = choose|c: ConnectionId| #[trigger]
                        self@.contains_key(c) && self@[c] == player;
                    assert(owned@.to_set().contains(c));
                }
            }
        }
        owned.len() > 0
    }
}

} // verus!
