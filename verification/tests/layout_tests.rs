use freemouse::layout::{MachineLayout, WorkspaceLayout, MAX_MACHINES};
use freemouse::network::{Edge, ScreenInfo};
use freemouse::router::EdgeRouter;
use uuid::Uuid;

fn screen(w: f64, h: f64) -> ScreenInfo {
    ScreenInfo {
        x_bits: 0.0f64.to_bits(),
        y_bits: 0.0f64.to_bits(),
        width_bits: w.to_bits(),
        height_bits: h.to_bits(),
        primary: true,
    }
}

fn machine(id: u128, name: &str, pos: (u8, u8)) -> MachineLayout {
    MachineLayout {
        machine_id: id,
        hostname: name.to_string(),
        ip: String::new(),
        grid_pos: pos,
        screens: vec![screen(1920.0, 1080.0)],
    }
}

#[test]
fn neighbor_adjacency() {
    let id_a = Uuid::new_v4().as_u128();
    let id_b = Uuid::new_v4().as_u128();
    let layout = WorkspaceLayout {
        machines: vec![
            MachineLayout {
                machine_id: id_a,
                hostname: "A".into(),
                ip: "10.0.0.1".into(),
                grid_pos: (0, 0),
                screens: vec![screen(1920.0, 1080.0)],
            },
            MachineLayout {
                machine_id: id_b,
                hostname: "B".into(),
                ip: "10.0.0.2".into(),
                grid_pos: (1, 0),
                screens: vec![screen(1920.0, 1080.0)],
            },
        ],
    };
    let neighbor = layout.neighbor_at_edge(id_a, Edge::Right).unwrap();
    assert_eq!(neighbor.machine_id, id_b);
}

#[test]
fn edge_cross_detects_right() {
    let id = Uuid::new_v4().as_u128();
    let neighbor_id = Uuid::new_v4().as_u128();
    let layout = WorkspaceLayout {
        machines: vec![
            MachineLayout {
                machine_id: id,
                hostname: "A".into(),
                ip: "1".into(),
                grid_pos: (0, 0),
                screens: vec![screen(1920.0, 1080.0)],
            },
            MachineLayout {
                machine_id: neighbor_id,
                hostname: "B".into(),
                ip: "2".into(),
                grid_pos: (1, 0),
                screens: vec![screen(1920.0, 1080.0)],
            },
        ],
    };
    let router = EdgeRouter::new(id, layout);
    // The pointer at (1919, 540) on a 1920x1080 screen with a 2-pixel threshold.
    let (x, y, w, h, threshold) = (1919.0f64, 540.0f64, 1920.0f64, 1080.0f64, 2.0f64);
    let result = router.check_edge_cross(
        x >= w - threshold,
        x <= threshold,
        y >= h - threshold,
        y <= threshold,
    );
    assert!(result.is_some());
    let (nid, edge) = result.unwrap();
    assert_eq!(nid, neighbor_id);
    assert_eq!(edge, Edge::Right);
}

#[test]
fn edge_cross_order_and_none_at_border() {
    let mut layout = WorkspaceLayout::new();
    layout.add_or_update_machine(machine(1, "A", (0, 0)));
    layout.add_or_update_machine(machine(2, "B", (1, 0)));
    layout.add_or_update_machine(machine(3, "C", (0, 1)));
    let router = EdgeRouter::new(1, layout);
    assert_eq!(router.check_edge_cross(false, false, true, false), Some((3, Edge::Bottom)));
    assert_eq!(router.check_edge_cross(true, false, true, false), Some((2, Edge::Right)));
    // Past the left border there is no cell, so there is no crossing.
    assert_eq!(router.check_edge_cross(false, true, false, false), None);
    assert_eq!(router.check_edge_cross(false, true, false, true), None);
    assert_eq!(router.check_edge_cross(false, false, false, false), None);
    let lone = EdgeRouter::new(9, WorkspaceLayout::new());
    assert_eq!(lone.check_edge_cross(true, true, true, true), None);
}

#[test]
fn add_or_update_replaces_and_caps() {
    let mut layout = WorkspaceLayout::new();
    for i in 0..6u128 {
        layout.add_or_update_machine(machine(i, "m", ((i % 2) as u8, (i / 2) as u8)));
    }
    assert_eq!(layout.machines.len(), MAX_MACHINES);
    layout.add_or_update_machine(machine(2, "renamed", (1, 1)));
    assert_eq!(layout.machines.len(), MAX_MACHINES);
    assert_eq!(layout.machines[2].hostname, "renamed");
    assert_eq!(layout.machines[2].grid_pos, (1, 1));
}

#[test]
fn remove_machine_drops_every_entry_with_id() {
    let mut layout = WorkspaceLayout {
        machines: vec![machine(1, "a", (0, 0)), machine(2, "b", (1, 0)), machine(1, "c", (0, 1))],
    };
    layout.remove_machine(1);
    assert_eq!(layout.machines.len(), 1);
    assert_eq!(layout.machines[0].machine_id, 2);
    layout.remove_machine(7);
    assert_eq!(layout.machines.len(), 1);
}

#[test]
fn opposite_edges() {
    assert_eq!(WorkspaceLayout::opposite_edge(Edge::Right), Edge::Left);
    assert_eq!(WorkspaceLayout::opposite_edge(Edge::Left), Edge::Right);
    assert_eq!(WorkspaceLayout::opposite_edge(Edge::Top), Edge::Bottom);
    assert_eq!(WorkspaceLayout::opposite_edge(Edge::Bottom), Edge::Top);
}

#[test]
fn next_free_grid_pos_in_reading_order() {
    let mut layout = WorkspaceLayout::new();
    assert_eq!(layout.next_free_grid_pos(), Some((0, 0)));
    layout.add_or_update_machine(machine(1, "a", (0, 0)));
    assert_eq!(layout.next_free_grid_pos(), Some((1, 0)));
    layout.add_or_update_machine(machine(2, "b", (0, 1)));
    assert_eq!(layout.next_free_grid_pos(), Some((1, 0)));
    layout.add_or_update_machine(machine(3, "c", (1, 0)));
    assert_eq!(layout.next_free_grid_pos(), Some((1, 1)));
    layout.add_or_update_machine(machine(4, "d", (1, 1)));
    assert_eq!(layout.next_free_grid_pos(), None);
}

#[test]
fn neighbors_are_mutual_in_grid() {
    let mut layout = WorkspaceLayout::new();
    layout.add_or_update_machine(machine(1, "a", (0, 0)));
    layout.add_or_update_machine(machine(2, "b", (1, 0)));
    layout.add_or_update_machine(machine(3, "c", (1, 1)));
    assert_eq!(layout.neighbor_at_edge(1, Edge::Right).unwrap().machine_id, 2);
    assert_eq!(layout.neighbor_at_edge(2, Edge::Left).unwrap().machine_id, 1);
    assert_eq!(layout.neighbor_at_edge(2, Edge::Bottom).unwrap().machine_id, 3);
    assert_eq!(layout.neighbor_at_edge(3, Edge::Top).unwrap().machine_id, 2);
    assert!(layout.neighbor_at_edge(1, Edge::Bottom).is_none());
    assert!(layout.neighbor_at_edge(42, Edge::Right).is_none());
}

#[test]
fn move_machine_respects_occupied_cells() {
    let mut layout = WorkspaceLayout::new();
    layout.add_or_update_machine(machine(1, "a", (0, 0)));
    layout.add_or_update_machine(machine(2, "b", (1, 0)));
    assert!(!layout.move_machine(1, (1, 0)));
    assert_eq!(layout.machines[0].grid_pos, (0, 0));
    assert!(layout.move_machine(1, (0, 1)));
    assert_eq!(layout.machines[0].grid_pos, (0, 1));
    assert!(layout.move_machine(2, (1, 0)));
    assert!(!layout.move_machine(9, (1, 1)));
}

#[test]
fn placement_uses_free_cells() {
    let mut layout = WorkspaceLayout::new();
    assert!(layout.register_local_machine(1, "host".to_string(), "10.0.0.1".to_string(), vec![]));
    assert!(!layout.register_local_machine(5, "host".to_string(), "10.0.0.9".to_string(), vec![]));
    assert_eq!(layout.machines.len(), 1);
    assert!(layout.place_in_free_cell(2, "peer".to_string(), String::new(), vec![]));
    assert_eq!(layout.machines[1].grid_pos, (1, 0));
    // A peer that greets again is moved to the next free cell.
    assert!(layout.place_in_free_cell(2, "peer".to_string(), String::new(), vec![]));
    assert_eq!(layout.machines.len(), 2);
    assert_eq!(layout.machines[1].grid_pos, (0, 1));
}

#[test]
fn machine_clone_copies_every_field() {
    let m = machine(77, "copy", (1, 1));
    let c = m.clone();
    assert_eq!(c.machine_id, 77);
    assert_eq!(c.hostname, "copy");
    assert_eq!(c.grid_pos, (1, 1));
    assert_eq!(c.screens, m.screens);
}

#[test]
fn lone_machine_crosses_nowhere() {
    let mut layout = WorkspaceLayout::new();
    layout.add_or_update_machine(machine(7, "A", (0, 0)));
    assert!(layout.neighbor_at_edge(7, Edge::Left).is_none());
    assert!(layout.neighbor_at_edge(7, Edge::Top).is_none());
    assert!(layout.neighbor_at_edge(7, Edge::Right).is_none());
    let router = EdgeRouter::new(7, layout);
    assert_eq!(router.check_edge_cross(true, true, true, true), None);
}

#[test]
fn editor_moves_one_free_grid_cell_at_a_time() {
    let mut layout = WorkspaceLayout::new();
    layout.add_or_update_machine(machine(1, "A", (0, 0)));
    layout.add_or_update_machine(machine(2, "B", (1, 0)));
    // Off the grid: no move.
    assert!(!layout.move_towards(1, Edge::Left));
    assert!(!layout.move_towards(1, Edge::Top));
    assert!(!layout.move_towards(2, Edge::Right));
    // Onto another machine: no move.
    assert!(!layout.move_towards(1, Edge::Right));
    // Into the free cell below.
    assert!(layout.move_towards(1, Edge::Bottom));
    assert_eq!(layout.machines[0].grid_pos, (0, 1));
    assert!(!layout.move_towards(1, Edge::Bottom));
    assert!(layout.move_towards(2, Edge::Bottom));
    assert_eq!(layout.machines[1].grid_pos, (1, 1));
    // Unknown machine.
    assert!(!layout.move_towards(9, Edge::Top));
    assert_eq!(layout.machines.len(), 2);
    assert_eq!(layout.machines[0].hostname, "A");
}
