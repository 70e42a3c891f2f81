use phi::messages::{ServerPush, SocketResponse};
use phi::registry::ConnectionRegistry;
use phi::snapshot::Snapshot;

fn sorted(mut ids: Vec<u64>) -> Vec<u64> {
    ids.sort();
    ids
}

#[test]
fn new_registry_is_empty() {
    let registry = ConnectionRegistry::new();
    assert_eq!(registry.len(), 0);
    assert!(registry.connections().is_empty());
    assert_eq!(registry.owner(1), None);
    assert!(!registry.is_connected(7));
}

#[test]
fn connections_know_their_owner() {
    let mut registry = ConnectionRegistry::new();
    assert_eq!(registry.add(10, 7), None);
    assert_eq!(registry.add(11, 7), None);
    assert_eq!(registry.add(12, 8), None);
    assert_eq!(registry.len(), 3);
    assert_eq!(registry.owner(10), Some(7));
    assert_eq!(registry.owner(12), Some(8));
    assert_eq!(registry.owner(13), None);
    assert!(registry.is_connected(7));
    assert!(registry.is_connected(8));
    assert!(!registry.is_connected(9));
    assert_eq!(sorted(registry.connections()), vec![10, 11, 12]);
    assert_eq!(sorted(registry.connections_of(7)), vec![10, 11]);
    assert_eq!(sorted(registry.connections_of(8)), vec![12]);
    assert!(registry.connections_of(9).is_empty());
}

#[test]
fn a_connection_can_change_hands() {
    let mut registry = ConnectionRegistry::new();
    assert_eq!(registry.add(10, 7), None);
    assert_eq!(registry.add(10, 8), Some(7));
    assert_eq!(registry.len(), 1);
    assert_eq!(registry.owner(10), Some(8));
    assert!(!registry.is_connected(7));
}

#[test]
fn removing_a_connection_returns_its_owner() {
    let mut registry = ConnectionRegistry::new();
    registry.add(10, 7);
    registry.add(11, 7);
    assert_eq!(registry.remove(10), Some(7));
    assert!(registry.is_connected(7));
    assert_eq!(registry.remove(10), None);
    assert_eq!(registry.remove(99), None);
    assert_eq!(registry.remove(11), Some(7));
    assert!(!registry.is_connected(7));
    assert_eq!(registry.len(), 0);
}

#[test]
fn push_to_all_addresses_everyone() {
    let mut registry = ConnectionRegistry::new();
    registry.add(10, 7);
    registry.add(11, 7);
    registry.add(12, 8);
    let dispatch = registry.push_to_all(ServerPush::IsAdminUser);
    assert!(matches!(dispatch.push, ServerPush::IsAdminUser));
    assert_eq!(sorted(dispatch.recipients), vec![10, 11, 12]);
    let empty = ConnectionRegistry::new().push_to_all(ServerPush::IsAdminUser);
    assert!(empty.recipients.is_empty());
}

#[test]
fn push_to_addresses_one_players_connections() {
    let mut registry = ConnectionRegistry::new();
    registry.add(10, 7);
    registry.add(11, 8);
    registry.add(12, 7);
    let dispatch = registry.push_to(7, ServerPush::PlayerRegistered { player_id: 7 });
    assert!(matches!(dispatch.push, ServerPush::PlayerRegistered { player_id: 7 }));
    assert_eq!(sorted(dispatch.recipients), vec![10, 12]);
    let nobody = registry.push_to(9, ServerPush::IsAdminUser);
    assert!(nobody.recipients.is_empty());
}

#[test]
fn socket_responses_become_pushes() {
    assert!(matches!(
        SocketResponse::ConfirmAdminKey.into_push(),
        ServerPush::IsAdminUser
    ));
    let picture = Snapshot { players: Vec::new(), is_calling: true };
    match SocketResponse::StateChange(picture).into_push() {
        ServerPush::StateChange { new_state } => {
            assert!(new_state.is_calling);
            assert!(new_state.players.is_empty());
        }
        other => panic!("unexpected push {:?}", other),
    }
}

#[test]
fn pushes_clone_with_their_content() {
    let picture = Snapshot { players: Vec::new(), is_calling: true };
    let push = ServerPush::StateChange { new_state: picture };
    match push.clone() {
        ServerPush::StateChange { new_state } => assert!(new_state.is_calling),
        other => panic!("unexpected push {:?}", other),
    }
    assert!(matches!(
        ServerPush::PlayerRegistered { player_id: 5 }.clone(),
        ServerPush::PlayerRegistered { player_id: 5 }
    ));
}
