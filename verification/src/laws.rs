//! Laws of the session: what holds of every state and every command.
//!
//! Each law is a proof function over the same models that the contracts of the
//! executable functions use, so each holds of the running session as well.

use crate::game::GameError;
use crate::messages::{ClientCmdView, ServerCmdView, ServerPushView};
use crate::player::{PlayerId, Timestamp, PLAYER_IDLE_THRESHOLD};
use crate::registry::{connections_of, is_connected, ConnectionId};
use crate::session::{OutcomeView, SessionView};
use vstd::prelude::*;

verus! {

/// Whether what `cmd` does depends on the player it is forwarded for.
pub open spec fn refers_to_player(cmd: ClientCmdView) -> bool {
    cmd is SetPlayerName || cmd is SetPlayerCard || cmd is RemovePlayer || cmd is AdminChallenge
        || cmd is Heartbeat
}

/// Whether every player that owns a connection is in the game.
pub open spec fn connected_players_present(session: SessionView) -> bool {
    forall|c: ConnectionId| #[trigger]
        session.connections.contains_key(c) ==> session.game.players.contains_key(
            session.connections[c],
        )
}

/// Toggle law. While the round is not being called, a click of a player on the card
/// it has selected leaves it with no selection, and a request for anything else that
/// the deck holds (or for no card) makes that its selection. Nothing else about the
/// player changes, and nobody else is touched.
pub proof fn law_toggle(
    session: SessionView,
    id: PlayerId,
    requested: Option<usize>,
    now: Timestamp,
    fresh: PlayerId,
)
    requires
        session.game.players.contains_key(id),
        !session.game.is_calling,
        requested matches Some(card) ==> card < session.game.deck.size(),
    ensures
        ({
            let current = session.game.players[id].selected_card;
            let after = session.step(
                ServerCmdView::Fwd(id, ClientCmdView::SetPlayerCard(requested)),
                now,
                fresh,
            );
            &&& after.game.players.contains_key(id)
            &&& requested == current ==> after.game.players[id].selected_card is None
            &&& requested != current ==> after.game.players[id].selected_card == requested
            &&& after.game.players[id].name == session.game.players[id].name
            &&& after.game.players[id].last_heartbeat == session.game.players[id].last_heartbeat
            &&& after.game.players.remove(id) == session.game.players.remove(id)
            &&& after.game.is_calling == session.game.is_calling
            &&& after.connections == session.connections
        }),
{
}

/// While the round is being called, a request for a card changes nothing and is
/// refused as locked.
pub proof fn law_selections_locked_while_calling(
    session: SessionView,
    id: PlayerId,
    requested: Option<usize>,
    now: Timestamp,
    fresh: PlayerId,
)
    requires
        session.game.is_calling,
    ensures
        ({
            let cmd = ServerCmdView::Fwd(id, ClientCmdView::SetPlayerCard(requested));
            &&& session.step(cmd, now, fresh) == session
            &&& session.refusal(cmd) == Some(GameError::SelectionsLocked)
        }),
{
}

/// No-op law. A command that refers to a player that is not in the game leaves the
/// whole session as it was. For `Heartbeat` this holds when nobody is due for eviction
/// at that moment: the eviction that a heartbeat runs does not depend on who sent it.
pub proof fn law_unknown_player_changes_nothing(
    session: SessionView,
    id: PlayerId,
    cmd: ClientCmdView,
    now: Timestamp,
    fresh: PlayerId,
)
    requires
        !session.game.players.contains_key(id),
        refers_to_player(cmd),
        cmd is Heartbeat ==> forall|p: PlayerId|
            !session.game.is_expired(p, now, session.max_idle),
    ensures
        session.step(ServerCmdView::Fwd(id, cmd), now, fresh) == session,
{
    let after = session.step(ServerCmdView::Fwd(id, cmd), now, fresh);
    assert(after.game.players =~= session.game.players);
}

/// A heartbeat of a player that is not in the game does what the eviction alone does.
pub proof fn law_heartbeat_of_unknown_player_only_evicts(
    session: SessionView,
    id: PlayerId,
    now: Timestamp,
    fresh: PlayerId,
)
    requires
        !session.game.players.contains_key(id),
    ensures
        session.step(ServerCmdView::Fwd(id, ClientCmdView::Heartbeat), now, fresh).game
            == session.game.evict_idle(now, session.max_idle),
        session.step(ServerCmdView::Fwd(id, ClientCmdView::Heartbeat), now, fresh).connections
            == session.connections,
{
}

/// Broadcast-on-change law. A command pushes a `StateChange` exactly when it changes
/// the observable state, and then the push depicts the state after the command and goes
/// to every connection registered after it. The issuer's reply is never a
/// `StateChange`.
pub proof fn law_broadcast_on_change_only(
    session: SessionView,
    cmd: ServerCmdView,
    now: Timestamp,
    fresh: PlayerId,
    after: SessionView,
    outcome: OutcomeView,
)
    requires
        session.handles(cmd, now, fresh, after, outcome),
    ensures
        (outcome.push matches Some(dispatch) && dispatch.push is StateChange) <==> after.game.observable()
            != session.game.observable(),
        after.game.observable() != session.game.observable() ==> {
            &&& outcome.push matches Some(dispatch)
            &&& dispatch.push matches ServerPushView::StateChange { new_state }
            &&& new_state.depicts(after.game, now, PLAYER_IDLE_THRESHOLD)
            &&& dispatch.recipients.no_duplicates()
            &&& dispatch.recipients.to_set() == after.connections.dom()
        },
        !(outcome.reply matches Some(reply) && reply is StateChange),
{
}

/// `Resume` pushes nothing when the round is not being called, and `Call` pushes
/// nothing when it already is.
pub proof fn law_repeated_call_or_resume_is_silent(
    session: SessionView,
    sender: PlayerId,
    now: Timestamp,
    fresh: PlayerId,
    after: SessionView,
    outcome: OutcomeView,
)
    requires
        session.handles(
            ServerCmdView::Fwd(
                sender,
                if session.game.is_calling {
                    ClientCmdView::Call
                } else {
                    ClientCmdView::Resume
                },
            ),
            now,
            fresh,
            after,
            outcome,
        ),
    ensures
        after == session,
        outcome.push is None,
        outcome.reply is None,
{
}

/// Multi-connection law, closing a connection. When a connection closes and its owner
/// still owns another one, the game is untouched. When it was the owner's last one, the
/// owner is out of the game, and if it was in the game before, a `StateChange` that no
/// longer shows it goes to the remaining connections.
pub proof fn law_last_connection_removes_player(
    session: SessionView,
    connection: ConnectionId,
    now: Timestamp,
    fresh: PlayerId,
    after: SessionView,
    outcome: OutcomeView,
)
    requires
        session.connections.contains_key(connection),
        session.handles(ServerCmdView::RemoveConnection(connection), now, fresh, after, outcome),
    ensures
        ({
            let owner = session.connections[connection];
            &&& after.connections == session.connections.remove(connection)
            &&& is_connected(after.connections, owner) ==> after.game == session.game
                && outcome.push is None
            &&& !is_connected(after.connections, owner) ==> {
                &&& !after.game.players.contains_key(owner)
                &&& after.game == session.game.remove_player(owner)
                &&& session.game.players.contains_key(owner) ==> {
                    &&& outcome.push matches Some(dispatch)
                    &&& dispatch.push matches ServerPushView::StateChange { new_state }
                    &&& !new_state.shows(owner)
                    &&& dispatch.recipients.to_set() == after.connections.dom()
                }
            }
        }),
{
    let owner = session.connections[connection];
    if !is_connected(after.connections, owner) && session.game.players.contains_key(owner) {
        assert(!after.game.observable().players.contains_key(owner));
    }
}

/// Multi-connection law, as an invariant. If every player that owns a connection is in
/// the game, that is still so after any command, except that `RemovePlayer` takes out
/// whom it names, and that a heartbeat evicts whoever is due, connected or not.
pub proof fn law_connected_players_stay(
    session: SessionView,
    cmd: ServerCmdView,
    now: Timestamp,
    fresh: PlayerId,
)
    requires
        connected_players_present(session),
        !(cmd matches ServerCmdView::Fwd(_, ClientCmdView::RemovePlayer)),
        cmd matches ServerCmdView::Fwd(sender, ClientCmdView::Heartbeat) ==> forall|
            c: ConnectionId,
        | #[trigger]
            session.connections.contains_key(c) ==> !session.game.touch_heartbeat(
                sender,
                now,
            ).is_expired(session.connections[c], now, session.max_idle),
    ensures
        connected_players_present(session.step(cmd, now, fresh)),
{
    let after = session.step(cmd, now, fresh);
    assert forall|c: ConnectionId| #[trigger]
        after.connections.contains_key(c) implies after.game.players.contains_key(
        after.connections[c],
    ) by {
        if let ServerCmdView::RemoveConnection(closed) = cmd {
            if session.closes_last_connection(closed) && after.connections[c]
                == session.connections[closed] {
                assert(is_connected(after.connections, after.connections[c]));
            }
        } else if !(cmd matches ServerCmdView::AddConnection(opened, _) && opened == c) {
            assert(session.connections.contains_key(c));
        }
    }
}

/// Idle-eviction law. When a heartbeat arrives, the sender's heartbeat is refreshed
/// first; then everybody whose last heartbeat is at least the threshold old is out of
/// the game, everybody else stays as it is, and if anybody went, exactly one
/// `StateChange` is pushed, which depicts the game without them.
pub proof fn law_idle_eviction(
    session: SessionView,
    sender: PlayerId,
    now: Timestamp,
    fresh: PlayerId,
    after: SessionView,
    outcome: OutcomeView,
    player: PlayerId,
)
    requires
        session.handles(
            ServerCmdView::Fwd(sender, ClientCmdView::Heartbeat),
            now,
            fresh,
            after,
            outcome,
        ),
        session.game.players.contains_key(player),
    ensures
        ({
            let age = now - session.game.players[player].last_heartbeat;
            let due = if player == sender {
                session.max_idle == 0
            } else {
                age >= session.max_idle
            };
            &&& due ==> {
                &&& !after.game.players.contains_key(player)
                &&& outcome.push matches Some(dispatch)
                &&& dispatch.push matches ServerPushView::StateChange { new_state }
                &&& new_state.depicts(after.game, now, PLAYER_IDLE_THRESHOLD)
                &&& !new_state.shows(player)
                &&& dispatch.recipients.to_set() == after.connections.dom()
            }
            &&& !due ==> {
                &&& after.game.players.contains_key(player)
                &&& after.game.players[player].name == session.game.players[player].name
                &&& after.game.players[player].selected_card
                    == session.game.players[player].selected_card
            }
            &&& outcome.reply is None
        }),
{
    if !after.game.players.contains_key(player) {
        assert(!after.game.observable().players.contains_key(player));
    }
}

/// Admin-confirmation law. An `AdminChallenge` with the session's key pushes
/// `IsAdminUser` to the connections of its sender, to each of them once and to no
/// connection of anybody else. With any other key nothing is pushed. Either way the
/// session stays as it was.
pub proof fn law_admin_confirmation_scope(
    session: SessionView,
    sender: PlayerId,
    key: Seq<char>,
    now: Timestamp,
    fresh: PlayerId,
    after: SessionView,
    outcome: OutcomeView,
)
    requires
        session.handles(
            ServerCmdView::Fwd(sender, ClientCmdView::AdminChallenge(key)),
            now,
            fresh,
            after,
            outcome,
        ),
    ensures
        after == session,
        outcome.reply is None,
        key == session.admin_key ==> {
            &&& outcome.push matches Some(dispatch)
            &&& dispatch.push == ServerPushView::IsAdminUser
            &&& dispatch.recipients.no_duplicates()
            &&& forall|i: int|
                0 <= i < dispatch.recipients.len() ==> {
                    let c = #[trigger] dispatch.recipients[i];
                    session.connections.contains_key(c) && session.connections[c] == sender
                }
            &&& forall|c: ConnectionId|
                session.connections.contains_key(c) && #[trigger] session.connections[c]
                    == sender ==> dispatch.recipients.contains(c)
        },
        key != session.admin_key ==> outcome.push is None && outcome.refusal == Some(
            GameError::InvalidAdminKey,
        ),
{
    if key == session.admin_key {
        let dispatch = outcome.push->0;
        assert forall|i: int| 0 <= i < dispatch.recipients.len() implies {
            let c = #[trigger] dispatch.recipients[i];
            session.connections.contains_key(c) && session.connections[c] == sender
        } by {
            let c = dispatch.recipients[i];
            assert(connections_of(session.connections, sender).contains(c));
        }
        assert forall|c: ConnectionId|
            session.connections.contains_key(c) && #[trigger] session.connections[c]
                == sender implies dispatch.recipients.contains(c) by {
            assert(dispatch.recipients.to_set().contains(c));
        }
    }
}

/// Reset law. After `Reset`, whatever the state was, nobody has a card selected and the
/// round is not being called; the same players are in the game, under the same names.
pub proof fn law_reset_clears_all(
    session: SessionView,
    sender: PlayerId,
    now: Timestamp,
    fresh: PlayerId,
)
    ensures
        ({
            let after = session.step(ServerCmdView::Fwd(sender, ClientCmdView::Reset), now, fresh);
            &&& !after.game.is_calling
            &&& after.game.players.dom() == session.game.players.dom()
            &&& forall|id: PlayerId| #[trigger]
                after.game.players.contains_key(id) ==> {
                    &&& after.game.players[id].selected_card is None
                    &&& after.game.players[id].name == session.game.players[id].name
                }
            &&& after.connections == session.connections
        }),
{
}

/// Every command leaves a well-formed session well formed.
pub proof fn law_step_preserves_wf(
    session: SessionView,
    cmd: ServerCmdView,
    now: Timestamp,
    fresh: PlayerId,
)
    requires
        session.wf(),
    ensures
        session.step(cmd, now, fresh).wf(),
{
    let after = session.step(cmd, now, fresh);
    match cmd {
        ServerCmdView::Fwd(sender, ClientCmdView::Heartbeat) => {
            // Eviction keeps a subset of finitely many players.
            let touched = session.game.touch_heartbeat(sender, now);
            vstd::set_lib::lemma_len_subset(after.game.players.dom(), touched.players.dom());
        },
        ServerCmdView::Fwd(_, ClientCmdView::Reset) => {
            assert(after.game.players.dom() =~= session.game.players.dom());
        },
        _ => {},
    }
}

} // verus!
