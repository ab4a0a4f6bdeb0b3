//! Bookkeeping of the workspace's peer connections: which peers are
//! connected, which discovered machines to connect to, and where the events
//! of the local capture and of the peers go.

use vstd::prelude::*;
use crate::layout::{
    copy_screens, has_id, neighbor_index, spec_add_or_update, spec_next_free, MachineView,
    WorkspaceLayout,
};
use crate::network::{
    is_file_event, is_input_event, spec_is_file_event, spec_is_input_event, DiscoveredServer,
    Edge, EventKind,
};

verus! {

/// The connection state of the local machine in the workspace. `P` is what
/// the program keeps per connected peer (its outbound channel, its shutdown
/// flag and its thread).
pub struct ConnectionManager<P> {
    pub local_machine_id: u128,
    pub pin: String,
    pub layout: WorkspaceLayout,
    /// The connected peers in the order they connected, at most one entry
    /// per id (`wf`). A list rather than a hash map, so that the first peer,
    /// and the order in which peers are taken at shutdown, are determined by
    /// the connection order and not by a per-process hash seed.
    pub peers: Vec<(u128, P)>,
}

/// Whether machine `other` sits across one of the local machine's edges.
pub open spec fn is_neighbor(ms: Seq<MachineView>, local: u128, other: u128) -> bool {
    exists|e: Edge|
        #![trigger neighbor_index(ms, local, e)]
        neighbor_index(ms, local, e) matches Some(j) && ms[j].machine_id == other
}

/// Whether the local machine starts the connection to a discovered machine:
/// only to a neighbour, and only when its own id is the smaller one, so that
/// of two neighbours exactly one dials the other.
pub open spec fn should_dial(ms: Seq<MachineView>, local: u128, other: u128) -> bool {
    other != local && local < other && is_neighbor(ms, local, other)
}

/// The indices of the discovered servers to dial, from the `i`-th on, given
/// the ids already connected: each neighbour to dial once, in order.
pub open spec fn dial_plan(
    ms: Seq<MachineView>,
    local: u128,
    connected: Seq<u128>,
    servers: Seq<u128>,
    i: nat,
) -> Seq<usize>
    decreases servers.len() - i,
{
    if i >= servers.len() {
        Seq::empty()
    } else if should_dial(ms, local, servers[i as int]) && !connected.contains(servers[i as int]) {
        seq![i as usize] + dial_plan(ms, local, connected.push(servers[i as int]), servers, i + 1)
    } else {
        dial_plan(ms, local, connected, servers, i + 1)
    }
}

/// The ids of a list of discovered servers.
pub open spec fn server_ids(servers: Seq<DiscoveredServer>) -> Seq<u128> {
    servers.map_values(|s: DiscoveredServer| s.machine_id)
}

impl<P> ConnectionManager<P> {
    /// The ids of the connected peers, in the order they connected.
    pub open spec fn peer_ids(&self) -> Seq<u128> {
        self.peers@.map_values(|p: (u128, P)| p.0)
    }

    /// The per-peer values, in the order the peers connected.
    pub open spec fn peer_values(&self) -> Seq<P> {
        self.peers@.map_values(|p: (u128, P)| p.1)
    }

    /// No peer is recorded twice.
    pub open spec fn wf(&self) -> bool {
        self.peer_ids().no_duplicates()
    }

    pub fn new(local_machine_id: u128, pin: String, layout: WorkspaceLayout) -> (m: Self)
        ensures
            m.local_machine_id == local_machine_id,
            m.pin@ == pin@,
            m.layout@ == layout@,
            m.peer_ids() == Seq::<u128>::empty(),
            m.wf(),
    {
        let m = ConnectionManager { local_machine_id, pin, layout, peers: Vec::new() };
        assert(m.peer_ids() =~= Seq::<u128>::empty());
        m
    }

    /// How many peers are connected.
    pub fn peer_count(&self) -> (n: usize)
        ensures
            n == self.peer_ids().len(),
    {
        self.peers.len()
    }

    /// Whether a peer with this id is connected.
    pub fn is_connected(&self, machine_id: u128) -> (r: bool)
        ensures
            r == self.peer_ids().contains(machine_id),
    {
        let mut i: usize = 0;
        while i < self.peers.len()
            invariant
                0 <= i <= self.peers.len(),
                forall|j: int| 0 <= j < i ==> self.peer_ids()[j] != machine_id,
            decreases self.peers.len() - i,
        {
            if self.peers[i].0 == machine_id {
                assert(self.peer_ids()[i as int] == machine_id);
                return true;
            }
            i = i + 1;
        }
        false
    }

    /// The values kept for the connected peer with this id.
    pub fn peer(&self, machine_id: u128) -> (r: Option<&P>)
        ensures
            r is None ==> !self.peer_ids().contains(machine_id),
            r matches Some(p) ==> exists|i: int|
                0 <= i < self.peer_ids().len() && self.peer_ids()[i] == machine_id
                    && #[trigger] self.peer_values()[i] == *p,
    {
        let mut i: usize = 0;
        while i < self.peers.len()
            invariant
                0 <= i <= self.peers.len(),
                forall|j: int| 0 <= j < i ==> self.peer_ids()[j] != machine_id,
            decreases self.peers.len() - i,
        {
            if self.peers[i].0 == machine_id {
                assert(self.peer_values()[i as int] == self.peers@[i as int].1);
                return Some(&self.peers[i].1);
            }
            i = i + 1;
        }
        None
    }

    /// The values of the peer that connected first, if any.
    pub fn peers_first(&self) -> (r: Option<&P>)
        ensures
            r is None <==> self.peer_ids().len() == 0,
            r matches Some(p) ==> *p == self.peer_values()[0],
    {
        if self.peers.len() == 0 {
            None
        } else {
            Some(&self.peers[0].1)
        }
    }

    /// Records a newly connected peer.
    pub fn add_peer(&mut self, machine_id: u128, peer: P)
        requires
            old(self).wf(),
            !old(self).peer_ids().contains(machine_id),
        ensures
            final(self).wf(),
            final(self).peer_ids() == old(self).peer_ids().push(machine_id),
            final(self).peer_values() == old(self).peer_values().push(peer),
            final(self).local_machine_id == old(self).local_machine_id,
            final(self).pin == old(self).pin,
            final(self).layout == old(self).layout,
    {
        let ghost ids = self.peer_ids();
        let ghost values = self.peer_values();
        self.peers.push((machine_id, peer));
        assert(self.peer_ids() =~= ids.push(machine_id));
        assert(self.peer_values() =~= values.push(peer));
    }

    /// Removes every peer and returns them, in the order they connected.
    pub fn take_peers(&mut self) -> (taken: Vec<(u128, P)>)
        ensures
            taken@.map_values(|p: (u128, P)| p.0) == old(self).peer_ids(),
            taken@.map_values(|p: (u128, P)| p.1) == old(self).peer_values(),
            final(self).peer_ids() == Seq::<u128>::empty(),
            final(self).wf(),
            final(self).local_machine_id == old(self).local_machine_id,
            final(self).pin == old(self).pin,
            final(self).layout == old(self).layout,
    {
        let mut taken: Vec<(u128, P)> = Vec::new();
        std::mem::swap(&mut taken, &mut self.peers);
        assert(self.peer_ids() =~= Seq::<u128>::empty());
        taken
    }

    /// Replaces the workspace layout.
    pub fn update_layout(&mut self, layout: WorkspaceLayout)
        ensures
            final(self).layout@ == layout@,
            final(self).peer_ids() == old(self).peer_ids(),
            final(self).peer_values() == old(self).peer_values(),
            final(self).local_machine_id == old(self).local_machine_id,
    {
        self.layout = layout;
    }

    /// Adds a discovered machine to the layout, in the first free cell, unless
    /// a machine with its id is already there. Returns whether the layout
    /// changed.
    pub fn add_discovered_to_layout(&mut self, server: &DiscoveredServer) -> (changed: bool)
        ensures
            has_id(old(self).layout@, server.machine_id) ==> !changed && final(self).layout@
                == old(self).layout@,
            !has_id(old(self).layout@, server.machine_id) ==> changed == spec_next_free(
                old(self).layout@,
            ) is Some && final(self).layout@ == match spec_next_free(old(self).layout@) {
                Some(c) => spec_add_or_update(
                    old(self).layout@,
                    MachineView {
                        machine_id: server.machine_id,
                        hostname: server.hostname@,
                        ip: server.ip@,
                        grid_pos: c,
                        screens: server.screens@,
                    },
                ),
                None => old(self).layout@,
            },
            final(self).peer_ids() == old(self).peer_ids(),
            final(self).peer_values() == old(self).peer_values(),
    {
        let mut i: usize = 0;
        while i < self.layout.machines.len()
            invariant
                0 <= i <= self.layout.machines.len(),
                forall|j: int| 0 <= j < i ==> #[trigger] self.layout@[j].machine_id != server.machine_id,
            decreases self.layout.machines.len() - i,
        {
            if self.layout.machines[i].machine_id == server.machine_id {
                assert(self.layout@[i as int].machine_id == server.machine_id);
                return false;
            }
            i = i + 1;
        }
        self.layout.place_in_free_cell(
            server.machine_id,
            server.hostname.clone(),
            server.ip.clone(),
            copy_screens(&server.screens),
        )
    }

    /// Whether the local machine should dial this machine: a neighbour in the
    /// layout with a larger id.
    pub fn should_dial(&self, machine_id: u128) -> (r: bool)
        ensures
            r == should_dial(self.layout@, self.local_machine_id, machine_id),
    {
        if machine_id == self.local_machine_id || self.local_machine_id >= machine_id {
            return false;
        }
        let right = self.layout.neighbor_at_edge(self.local_machine_id, Edge::Right);
        let left = self.layout.neighbor_at_edge(self.local_machine_id, Edge::Left);
        let top = self.layout.neighbor_at_edge(self.local_machine_id, Edge::Top);
        let bottom = self.layout.neighbor_at_edge(self.local_machine_id, Edge::Bottom);
        let r = (right.is_some() && right.unwrap().machine_id == machine_id) || (left.is_some()
            && left.unwrap().machine_id == machine_id) || (top.is_some() && top.unwrap().machine_id
            == machine_id) || (bottom.is_some() && bottom.unwrap().machine_id == machine_id);
        proof {
            if is_neighbor(self.layout@, self.local_machine_id, machine_id) {
                let e = choose|e: Edge|
                    #![trigger neighbor_index(self.layout@, self.local_machine_id, e)]
                    neighbor_index(self.layout@, self.local_machine_id, e) matches Some(j)
                        && self.layout@[j].machine_id == machine_id;
                match e {
                    Edge::Right => {},
                    Edge::Left => {},
                    Edge::Top => {},
                    Edge::Bottom => {},
                }
            }
        }
        r
    }

    /// Which of the discovered servers to dial, by index and in order: every
    /// neighbour with a larger id that is not connected yet, each id once.
    pub fn neighbors_to_dial(&self, discovered: &Vec<DiscoveredServer>) -> (plan: Vec<usize>)
        ensures
            plan@ == dial_plan(
                self.layout@,
                self.local_machine_id,
                self.peer_ids(),
                server_ids(discovered@),
                0,
            ),
    {
        let mut connected: Vec<u128> = Vec::new();
        let mut i: usize = 0;
        while i < self.peers.len()
            invariant
                0 <= i <= self.peers.len(),
                connected@ == self.peer_ids().subrange(0, i as int),
            decreases self.peers.len() - i,
        {
            connected.push(self.peers[i].0);
            i = i + 1;
            assert(connected@ =~= self.peer_ids().subrange(0, i as int));
        }
        assert(connected@ =~= self.peer_ids());
        let ghost ids = server_ids(discovered@);
        let mut plan: Vec<usize> = Vec::new();
        let mut k: usize = 0;
        while k < discovered.len()
            invariant
                0 <= k <= discovered.len(),
                ids == server_ids(discovered@),
                ids.len() == discovered@.len(),
                plan@ + dial_plan(self.layout@, self.local_machine_id, connected@, ids, k as nat)
                    == dial_plan(self.layout@, self.local_machine_id, self.peer_ids(), ids, 0),
            decreases discovered.len() - k,
        {
            let id = discovered[k].machine_id;
            assert(ids[k as int] == id);
            let dial = self.should_dial(id);
            let mut seen = false;
            let mut j: usize = 0;
            while j < connected.len()
                invariant
                    0 <= j <= connected.len(),
                    seen == (exists|t: int| 0 <= t < j && #[trigger] connected@[t] == id),
                decreases connected.len() - j,
            {
                if connected[j] == id {
                    seen = true;
                }
                j = j + 1;
            }
            if dial && !seen {
                let ghost before = plan@;
                plan.push(k);
                connected.push(id);
                assert(plan@ =~= before + seq![k]);
            }
            k = k + 1;
        }
        assert(plan@ + Seq::<usize>::empty() =~= plan@);
        plan
    }
}

/// Adds a discovered server to the list of those seen so far, unless a server
/// with its id is already there. Returns whether it was added.
pub fn record_discovered(seen: &mut Vec<DiscoveredServer>, server: DiscoveredServer) -> (added:
    bool)
    ensures
        added == !server_ids(old(seen)@).contains(server.machine_id),
        added ==> final(seen)@ == old(seen)@.push(server),
        !added ==> final(seen)@ == old(seen)@,
{
    let mut i: usize = 0;
    while i < seen.len()
        invariant
            0 <= i <= seen.len(),
            forall|j: int| 0 <= j < i ==> #[trigger] seen@[j].machine_id != server.machine_id,
        decreases seen.len() - i,
    {
        if seen[i].machine_id == server.machine_id {
            assert(server_ids(seen@)[i as int] == server.machine_id);
            return false;
        }
        i = i + 1;
    }
    assert(!server_ids(seen@).contains(server.machine_id)) by {
        if server_ids(seen@).contains(server.machine_id) {
            let t = choose|t: int|
                0 <= t < server_ids(seen@).len() && server_ids(seen@)[t] == server.machine_id;
            assert(seen@[t].machine_id == server.machine_id);
        }
    }
    seen.push(server);
    true
}

/// Law: of two machines that neighbour each other, exactly one dials the
/// other, so a pair of neighbours gets one connection.
pub proof fn lemma_exactly_one_dials(ms: Seq<MachineView>, a: u128, b: u128)
    requires
        a != b,
        is_neighbor(ms, a, b),
        is_neighbor(ms, b, a),
    ensures
        should_dial(ms, a, b) != should_dial(ms, b, a),
{
}

/// Law: a dialling plan names each server at most once, never one whose id is
/// already connected or repeats an id planned earlier, and only neighbours
/// the local machine should dial; its indices increase.
pub proof fn lemma_dial_plan_sound(
    ms: Seq<MachineView>,
    local: u128,
    connected: Seq<u128>,
    servers: Seq<u128>,
    i: nat,
)
    requires
        servers.len() <= usize::MAX,
    ensures
        forall|a: int|
            0 <= a < dial_plan(ms, local, connected, servers, i).len() ==> i <= #[trigger] dial_plan(
                ms,
                local,
                connected,
                servers,
                i,
            )[a] < servers.len() && should_dial(
                ms,
                local,
                servers[dial_plan(ms, local, connected, servers, i)[a] as int],
            ) && !connected.contains(
                servers[dial_plan(ms, local, connected, servers, i)[a] as int],
            ),
        forall|a: int, b: int|
            0 <= a < b < dial_plan(ms, local, connected, servers, i).len() ==> #[trigger] dial_plan(
                ms,
                local,
                connected,
                servers,
                i,
            )[a] < #[trigger] dial_plan(ms, local, connected, servers, i)[b] && servers[dial_plan(
                ms,
                local,
                connected,
                servers,
                i,
            )[a] as int] != servers[dial_plan(ms, local, connected, servers, i)[b] as int],
    decreases servers.len() - i,
{
    let plan = dial_plan(ms, local, connected, servers, i);
    if i < servers.len() {
        let x = servers[i as int];
        if should_dial(ms, local, x) && !connected.contains(x) {
            let next = connected.push(x);
            lemma_dial_plan_sound(ms, local, next, servers, i + 1);
            let rest = dial_plan(ms, local, next, servers, i + 1);
            assert(plan == seq![i as usize] + rest);
            assert(plan[0] == i);
            assert forall|a: int| 0 <= a < rest.len() implies !connected.contains(
                servers[#[trigger] rest[a] as int],
            ) && servers[rest[a] as int] != x by {
                assert(!next.contains(servers[rest[a] as int]));
                if connected.contains(servers[rest[a] as int]) {
                    let t = choose|t: int|
                        0 <= t < connected.len() && connected[t] == servers[rest[a] as int];
                    assert(next[t] == connected[t]);
                }
                assert(next[connected.len() as int] == x);
            }
            assert forall|a: int| 0 <= a < plan.len() implies i <= #[trigger] plan[a]
                < servers.len() && should_dial(ms, local, servers[plan[a] as int])
                && !connected.contains(servers[plan[a] as int]) by {
                if a > 0 {
                    assert(plan[a] == rest[a - 1]);
                }
            }
            assert forall|a: int, b: int|
                0 <= a < b < plan.len() implies #[trigger] plan[a] < #[trigger] plan[b]
                && servers[plan[a] as int] != servers[plan[b] as int] by {
                assert(plan[b] == rest[b - 1]);
                if a > 0 {
                    assert(plan[a] == rest[a - 1]);
                }
            }
        } else {
            lemma_dial_plan_sound(ms, local, connected, servers, i + 1);
            assert(plan == dial_plan(ms, local, connected, servers, i + 1));
        }
    }
}

/// Where the event bridge sends an event captured on the local machine.
#[derive(Clone, Copy, Debug, PartialEq, Eq, Structural)]
pub enum CaptureRoute {
    /// To every connected peer.
    AllPeers,
    /// To the peer that currently has control.
    ActivePeer(u128),
    /// Nowhere.
    Drop,
}

/// Clipboard text goes to every peer; any other captured event goes to the
/// active peer while the pointer is on a remote machine, and nowhere
/// otherwise.
pub fn route_captured(kind: EventKind, remote: bool, active_peer: Option<u128>) -> (route:
    CaptureRoute)
    ensures
        route == if kind == EventKind::ClipboardText {
            CaptureRoute::AllPeers
        } else if remote && active_peer is Some {
            CaptureRoute::ActivePeer(active_peer->0)
        } else {
            CaptureRoute::Drop
        },
{
    match kind {
        EventKind::ClipboardText => CaptureRoute::AllPeers,
        _ => {
            if remote {
                match active_peer {
                    Some(id) => CaptureRoute::ActivePeer(id),
                    None => CaptureRoute::Drop,
                }
            } else {
                CaptureRoute::Drop
            }
        },
    }
}

/// Where the event bridge sends an event received from a peer.
#[derive(Clone, Copy, Debug, PartialEq, Eq, Structural)]
pub enum InboundRoute {
    /// To the user interface (greetings and layout changes).
    Ui,
    /// Onto the local clipboard.
    Clipboard,
    /// To the file-transfer state.
    FileTransfer,
    /// To the input simulator.
    Simulation,
    /// Nowhere.
    Drop,
}

/// Greetings and layout updates go to the user interface, clipboard text to
/// the clipboard, file-transfer messages to the file-transfer state, input
/// events to the simulator; anything else is dropped.
pub fn route_inbound(kind: EventKind) -> (route: InboundRoute)
    ensures
        route == if kind == EventKind::Hello || kind == EventKind::LayoutUpdate {
            InboundRoute::Ui
        } else if kind == EventKind::ClipboardText {
            InboundRoute::Clipboard
        } else if spec_is_file_event(kind) {
            InboundRoute::FileTransfer
        } else if spec_is_input_event(kind) {
            InboundRoute::Simulation
        } else {
            InboundRoute::Drop
        },
{
    match kind {
        EventKind::Hello | EventKind::LayoutUpdate => InboundRoute::Ui,
        EventKind::ClipboardText => InboundRoute::Clipboard,
        _ => {
            if is_file_event(kind) {
                InboundRoute::FileTransfer
            } else if is_input_event(kind) {
                InboundRoute::Simulation
            } else {
                InboundRoute::Drop
            }
        },
    }
}

/// Law: the local machine dials every neighbour with a larger id, whichever
/// of the four edges (left, right, top or bottom) it lies across.
pub proof fn lemma_dials_every_larger_neighbour(
    ms: Seq<MachineView>,
    local: u128,
    other: u128,
    e: Edge,
    j: int,
)
    requires
        local < other,
        neighbor_index(ms, local, e) == Some(j),
        ms[j].machine_id == other,
    ensures
        should_dial(ms, local, other),
        !should_dial(ms, other, local),
{
}

} // verus!
