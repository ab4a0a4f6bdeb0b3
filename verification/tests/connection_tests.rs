use freemouse::connection::{record_discovered, ConnectionManager};
use freemouse::layout::{MachineLayout, WorkspaceLayout};
use freemouse::network::DiscoveredServer;

fn machine(id: u128, pos: (u8, u8)) -> MachineLayout {
    MachineLayout {
        machine_id: id,
        hostname: format!("m{}", id),
        ip: String::new(),
        grid_pos: pos,
        screens: vec![],
    }
}

fn server(id: u128) -> DiscoveredServer {
    DiscoveredServer {
        ip: format!("10.0.0.{}", id),
        hostname: format!("host{}", id),
        port: 4444,
        machine_id: id,
        screens: vec![],
        protocol_version: 2,
    }
}

#[test]
fn peers_are_tracked() {
    let mut cm: ConnectionManager<&str> =
        ConnectionManager::new(1, "123456".to_string(), WorkspaceLayout::new());
    assert_eq!(cm.peer_count(), 0);
    assert!(cm.peers_first().is_none());
    cm.add_peer(5, "five");
    cm.add_peer(3, "three");
    assert_eq!(cm.peer_count(), 2);
    assert!(cm.is_connected(3));
    assert!(!cm.is_connected(4));
    assert_eq!(cm.peer(3), Some(&"three"));
    assert_eq!(cm.peer(4), None);
    assert_eq!(cm.peers_first(), Some(&"five"));
    let taken = cm.take_peers();
    assert_eq!(taken, vec![(5, "five"), (3, "three")]);
    assert_eq!(cm.peer_count(), 0);
}

#[test]
fn dial_only_larger_neighbors_once() {
    let mut layout = WorkspaceLayout::new();
    layout.add_or_update_machine(machine(5, (0, 0)));
    layout.add_or_update_machine(machine(9, (1, 0)));
    layout.add_or_update_machine(machine(2, (0, 1)));
    layout.add_or_update_machine(machine(7, (1, 1)));
    let mut cm: ConnectionManager<()> = ConnectionManager::new(5, "1".to_string(), layout);
    let discovered = vec![server(5), server(2), server(9), server(7), server(9)];
    // 9 is the right neighbour and larger; 2 is below but smaller; 7 is diagonal.
    assert_eq!(cm.neighbors_to_dial(&discovered), vec![2]);
    assert!(cm.should_dial(9));
    assert!(!cm.should_dial(2));
    assert!(!cm.should_dial(7));
    assert!(!cm.should_dial(5));
    cm.add_peer(9, ());
    assert!(cm.neighbors_to_dial(&discovered).is_empty());
}

#[test]
fn discovered_machines_join_the_layout_once() {
    let mut cm: ConnectionManager<()> =
        ConnectionManager::new(1, "1".to_string(), WorkspaceLayout::new());
    assert!(cm.add_discovered_to_layout(&server(4)));
    assert!(!cm.add_discovered_to_layout(&server(4)));
    assert_eq!(cm.layout.machines.len(), 1);
    assert_eq!(cm.layout.machines[0].hostname, "host4");
    assert_eq!(cm.layout.machines[0].ip, "10.0.0.4");
    assert_eq!(cm.layout.machines[0].grid_pos, (0, 0));
    for id in 10..14u128 {
        cm.add_discovered_to_layout(&server(id));
    }
    assert_eq!(cm.layout.machines.len(), 4);
    assert!(!cm.add_discovered_to_layout(&server(20)));
    let mut next = WorkspaceLayout::new();
    next.add_or_update_machine(machine(1, (0, 0)));
    cm.update_layout(next);
    assert_eq!(cm.layout.machines.len(), 1);
}

#[test]
fn discovered_servers_are_recorded_once() {
    let mut seen = Vec::new();
    assert!(record_discovered(&mut seen, server(4)));
    assert!(record_discovered(&mut seen, server(8)));
    let mut again = server(4);
    again.hostname = "renamed".to_string();
    assert!(!record_discovered(&mut seen, again));
    assert_eq!(seen.len(), 2);
    assert_eq!(seen[0].machine_id, 4);
    assert_eq!(seen[0].hostname, "host4");
    assert_eq!(seen[1].machine_id, 8);
}
