//! The workspace layout: up to four machines placed on a 2×2 grid, where
//! machines in neighbouring cells share their facing screen edges.

use vstd::prelude::*;
use crate::network::{Edge, ScreenInfo};

verus! {

/// The most machines a workspace holds.
pub const MAX_MACHINES: usize = 4;

/// The protocol version this implementation speaks.
pub const PROTOCOL_VERSION: u32 = 2;

/// Cells per row and per column of the grid.
pub const GRID_SIZE: u8 = 2;

/// A grid cell, as (column, row).
pub type GridPos = (u8, u8);

/// One machine of the workspace and where it sits on the grid.
#[derive(Debug)]
pub struct MachineLayout {
    pub machine_id: u128,
    pub hostname: String,
    pub ip: String,
    pub grid_pos: GridPos,
    pub screens: Vec<ScreenInfo>,
}

/// What a machine entry holds, as mathematical values.
pub struct MachineView {
    pub machine_id: u128,
    pub hostname: Seq<char>,
    pub ip: Seq<char>,
    pub grid_pos: GridPos,
    pub screens: Seq<ScreenInfo>,
}

impl View for MachineLayout {
    type V = MachineView;

    open spec fn view(&self) -> MachineView {
        MachineView {
            machine_id: self.machine_id,
            hostname: self.hostname@,
            ip: self.ip@,
            grid_pos: self.grid_pos,
            screens: self.screens@,
        }
    }
}

/// The machines of the workspace, in the order they were added.
#[derive(Clone, Debug)]
pub struct WorkspaceLayout {
    pub machines: Vec<MachineLayout>,
}

/// A copy of a list of screens.
pub fn copy_screens(screens: &Vec<ScreenInfo>) -> (copy: Vec<ScreenInfo>)
    ensures
        copy@ == screens@,
{
    let mut copy: Vec<ScreenInfo> = Vec::new();
    let mut i: usize = 0;
    while i < screens.len()
        invariant
            0 <= i <= screens.len(),
            copy@ == screens@.subrange(0, i as int),
        decreases screens.len() - i,
    {
        copy.push(screens[i]);
        i = i + 1;
        assert(screens@.subrange(0, i as int) == screens@.subrange(0, i - 1) + seq![screens@[i - 1]]);
    }
    assert(screens@.subrange(0, screens.len() as int) == screens@);
    copy
}

impl Clone for MachineLayout {
    fn clone(&self) -> (copy: Self)
        ensures
            copy@ == self@,
    {
        let screens = copy_screens(&self.screens);
        MachineLayout {
            machine_id: self.machine_id,
            hostname: self.hostname.clone(),
            ip: self.ip.clone(),
            grid_pos: self.grid_pos,
            screens,
        }
    }
}

/// The index of the first element of `s`, from `start` on, that satisfies `p`.
pub open spec fn first_index_from<T>(s: Seq<T>, p: spec_fn(T) -> bool, start: int) -> Option<int>
    decreases s.len() - start,
{
    if start < 0 || start >= s.len() {
        None
    } else if p(s[start]) {
        Some(start)
    } else {
        first_index_from(s, p, start + 1)
    }
}

/// What `first_index_from` finds: a satisfying element with none before it,
/// or no satisfying element at all.
pub proof fn lemma_first_index_from<T>(s: Seq<T>, p: spec_fn(T) -> bool, start: int)
    requires
        0 <= start,
    ensures
        first_index_from(s, p, start) matches Some(k) ==> start <= k < s.len() && p(s[k])
            && forall|j: int| start <= j < k ==> !p(#[trigger] s[j]),
        first_index_from(s, p, start) is None ==> forall|j: int|
            start <= j < s.len() ==> !p(#[trigger] s[j]),
    decreases s.len() - start,
{
    if start < s.len() && !p(s[start]) {
        lemma_first_index_from(s, p, start + 1);
    }
}

/// The predicate "is the machine with this id".
pub open spec fn with_id(id: u128) -> spec_fn(MachineView) -> bool {
    |m: MachineView| m.machine_id == id
}

/// The predicate "is not the machine with this id".
pub open spec fn without_id(id: u128) -> spec_fn(MachineView) -> bool {
    |m: MachineView| m.machine_id != id
}

/// The predicate "sits in this cell".
pub open spec fn at_cell(cell: GridPos) -> spec_fn(MachineView) -> bool {
    |m: MachineView| m.grid_pos == cell
}

/// The index of the first machine with this id.
pub open spec fn index_of_id(ms: Seq<MachineView>, id: u128) -> Option<int> {
    first_index_from(ms, with_id(id), 0)
}

/// The index of the first machine in this cell.
pub open spec fn index_at(ms: Seq<MachineView>, cell: GridPos) -> Option<int> {
    first_index_from(ms, at_cell(cell), 0)
}

/// Whether some machine sits in this cell.
pub open spec fn occupied(ms: Seq<MachineView>, cell: GridPos) -> bool {
    exists|i: int| 0 <= i < ms.len() && #[trigger] ms[i].grid_pos == cell
}

/// The cell one step towards `edge` from `cell`; none past the border of the
/// coordinate range, where there is no cell to step to.
pub open spec fn neighbor_cell(cell: GridPos, edge: Edge) -> Option<GridPos> {
    match edge {
        Edge::Right => if cell.0 == 255 { None } else { Some(((cell.0 + 1) as u8, cell.1)) },
        Edge::Left => if cell.0 == 0 { None } else { Some(((cell.0 - 1) as u8, cell.1)) },
        Edge::Bottom => if cell.1 == 255 { None } else { Some((cell.0, (cell.1 + 1) as u8)) },
        Edge::Top => if cell.1 == 0 { None } else { Some((cell.0, (cell.1 - 1) as u8)) },
    }
}

/// The index of the machine across `edge` from the first machine with `id`:
/// the first machine in the cell one step that way, if there is such a cell.
pub open spec fn neighbor_index(ms: Seq<MachineView>, id: u128, edge: Edge) -> Option<int> {
    match index_of_id(ms, id) {
        Some(i) => match neighbor_cell(ms[i].grid_pos, edge) {
            Some(c) => index_at(ms, c),
            None => None,
        },
        None => None,
    }
}

/// Whether a cell lies on the 2×2 grid.
pub open spec fn in_grid(cell: GridPos) -> bool {
    cell.0 < GRID_SIZE && cell.1 < GRID_SIZE
}

/// Whether every machine sits on the grid.
pub open spec fn all_in_grid(ms: Seq<MachineView>) -> bool {
    forall|i: int| 0 <= i < ms.len() ==> in_grid(#[trigger] ms[i].grid_pos)
}

/// The grid cell one step towards `edge` from `cell`, if that step stays on
/// the grid.
pub open spec fn grid_step(cell: GridPos, edge: Edge) -> Option<GridPos> {
    match neighbor_cell(cell, edge) {
        Some(c) => if in_grid(c) { Some(c) } else { None },
        None => None,
    }
}

/// The machines after the layout editor moves the machine `id` one cell
/// towards `edge`: the move happens when the machine is in the layout, the
/// cell that way is on the grid, and no other machine sits there.
pub open spec fn spec_move_towards(ms: Seq<MachineView>, id: u128, edge: Edge) -> Seq<MachineView> {
    match index_of_id(ms, id) {
        Some(i) => match grid_step(ms[i].grid_pos, edge) {
            Some(c) => spec_move(ms, id, c),
            None => ms,
        },
        None => ms,
    }
}

/// Whether the layout editor's move of `id` towards `edge` takes place.
pub open spec fn moves_towards(ms: Seq<MachineView>, id: u128, edge: Edge) -> bool {
    match index_of_id(ms, id) {
        Some(i) => match grid_step(ms[i].grid_pos, edge) {
            Some(c) => !occupied_by_other(ms, id, c),
            None => false,
        },
        None => false,
    }
}

/// The side facing `edge`.
pub open spec fn spec_opposite_edge(edge: Edge) -> Edge {
    match edge {
        Edge::Right => Edge::Left,
        Edge::Left => Edge::Right,
        Edge::Top => Edge::Bottom,
        Edge::Bottom => Edge::Top,
    }
}

/// The cell visited `k`-th when looking for a free one: row by row, left to
/// right.
pub open spec fn cell_in_order(k: nat) -> GridPos {
    ((k % 2) as u8, (k / 2) as u8)
}

/// The first free cell from the `k`-th on, in reading order.
pub open spec fn free_cell_from(ms: Seq<MachineView>, k: nat) -> Option<GridPos>
    decreases 4 - k,
{
    if k >= 4 {
        None
    } else if !occupied(ms, cell_in_order(k)) {
        Some(cell_in_order(k))
    } else {
        free_cell_from(ms, k + 1)
    }
}

/// The first free grid cell in reading order, if any.
pub open spec fn spec_next_free(ms: Seq<MachineView>) -> Option<GridPos> {
    free_cell_from(ms, 0)
}

/// The machines after `add_or_update_machine(m)`: the first machine with
/// m's id is replaced by m; otherwise m is appended while there is room.
pub open spec fn spec_add_or_update(ms: Seq<MachineView>, m: MachineView) -> Seq<MachineView> {
    match index_of_id(ms, m.machine_id) {
        Some(i) => ms.update(i, m),
        None => if ms.len() < MAX_MACHINES {
            ms.push(m)
        } else {
            ms
        },
    }
}

/// Whether a machine other than `id` sits in `cell`.
pub open spec fn occupied_by_other(ms: Seq<MachineView>, id: u128, cell: GridPos) -> bool {
    exists|i: int| 0 <= i < ms.len() && #[trigger] ms[i].grid_pos == cell && ms[i].machine_id != id
}

/// The machines after `move_machine(id, cell)`: the first machine with `id`
/// moves to `cell` if no other machine sits there.
pub open spec fn spec_move(ms: Seq<MachineView>, id: u128, cell: GridPos) -> Seq<MachineView> {
    if occupied_by_other(ms, id, cell) {
        ms
    } else {
        match index_of_id(ms, id) {
            Some(i) => ms.update(i, MachineView { grid_pos: cell, ..ms[i] }),
            None => ms,
        }
    }
}

/// Whether some machine has this hostname.
pub open spec fn has_hostname(ms: Seq<MachineView>, hostname: Seq<char>) -> bool {
    exists|i: int| 0 <= i < ms.len() && #[trigger] ms[i].hostname == hostname
}

/// Whether some machine has this id.
pub open spec fn has_id(ms: Seq<MachineView>, id: u128) -> bool {
    exists|i: int| 0 <= i < ms.len() && #[trigger] ms[i].machine_id == id
}

/// Whether the layout is consistent: at most four machines, no two with the
/// same id, no two in the same cell.
pub open spec fn is_consistent(ms: Seq<MachineView>) -> bool {
    &&& ms.len() <= MAX_MACHINES
    &&& forall|i: int, j: int|
        0 <= i < ms.len() && 0 <= j < ms.len() && i != j ==> #[trigger] ms[i].machine_id
            != #[trigger] ms[j].machine_id
    &&& forall|i: int, j: int|
        0 <= i < ms.len() && 0 <= j < ms.len() && i != j ==> ms[i].grid_pos != ms[j].grid_pos
}

/// The views of a sequence of machine entries.
pub open spec fn views(ms: Seq<MachineLayout>) -> Seq<MachineView> {
    ms.map_values(|m: MachineLayout| m@)
}

impl View for WorkspaceLayout {
    type V = Seq<MachineView>;

    open spec fn view(&self) -> Seq<MachineView> {
        views(self.machines@)
    }
}

impl WorkspaceLayout {
    /// A workspace with no machines.
    pub fn new() -> (w: Self)
        ensures
            w.machines@ == Seq::<MachineLayout>::empty(),
    {
        WorkspaceLayout { machines: Vec::new() }
    }

    /// The index of the first machine with this id.
    pub fn find_machine(&self, id: u128) -> (r: Option<usize>)
        ensures
            r matches Some(i) ==> index_of_id(self@, id) == Some(i as int),
            r is None ==> index_of_id(self@, id) is None,
    {
        let mut i: usize = 0;
        while i < self.machines.len()
            invariant
                0 <= i <= self.machines.len(),
                index_of_id(self@, id) == first_index_from(
                    self@,
                    with_id(id),
                    i as int,
                ),
            decreases self.machines.len() - i,
        {
            if self.machines[i].machine_id == id {
                return Some(i);
            }
            i = i + 1;
        }
        None
    }

    /// The index of the first machine in this cell.
    pub fn find_at(&self, cell: GridPos) -> (r: Option<usize>)
        ensures
            r matches Some(i) ==> index_at(self@, cell) == Some(i as int),
            r is None ==> index_at(self@, cell) is None,
    {
        let mut i: usize = 0;
        while i < self.machines.len()
            invariant
                0 <= i <= self.machines.len(),
                index_at(self@, cell) == first_index_from(
                    self@,
                    at_cell(cell),
                    i as int,
                ),
            decreases self.machines.len() - i,
        {
            if self.machines[i].grid_pos.0 == cell.0 && self.machines[i].grid_pos.1 == cell.1 {
                return Some(i);
            }
            i = i + 1;
        }
        None
    }

    /// Whether some machine sits in this cell.
    pub fn is_occupied(&self, cell: GridPos) -> (r: bool)
        ensures
            r == occupied(self@, cell),
    {
        proof {
            lemma_first_index_from(self@, at_cell(cell), 0);
        }
        let found = self.find_at(cell);
        proof {
            if found is None {
                assert forall|i: int| 0 <= i < self@.len() implies #[trigger] self@[i].grid_pos != cell by {
                    assert(!at_cell(cell)(self@[i]));
                }
            }
        }
        found.is_some()
    }

    /// Replaces the first machine with the same id, or appends the machine if
    /// there is none and the workspace has room; a full workspace is left as
    /// it is.
    pub fn add_or_update_machine(&mut self, machine: MachineLayout)
        ensures
            final(self)@ == spec_add_or_update(old(self)@, machine@),
    {
        proof {
            lemma_first_index_from(self@, with_id(machine.machine_id), 0);
        }
        match self.find_machine(machine.machine_id) {
            Some(i) => {
                let ghost before = self@;
                let ghost m = machine@;
                self.machines.set(i, machine);
                assert(self@ =~= before.update(i as int, m));
            },
            None => {
                if self.machines.len() < MAX_MACHINES {
                    let ghost before = self@;
                    let ghost m = machine@;
                    self.machines.push(machine);
                    assert(self@ =~= before.push(m));
                }
            },
        }
    }

    /// Removes every machine with this id.
    pub fn remove_machine(&mut self, machine_id: u128)
        ensures
            final(self)@ == old(self)@.filter(without_id(machine_id)),
    {
        let ghost before_removal = self@;
        let mut kept: Vec<MachineLayout> = Vec::new();
        let mut rest: Vec<MachineLayout> = Vec::new();
        std::mem::swap(&mut rest, &mut self.machines);
        let n = rest.len();
        let mut i: usize = 0;
        assert(views(rest@) =~= before_removal.subrange(0, n as int));
        while rest.len() > 0
            invariant
                n == before_removal.len(),
                i + rest.len() == n,
                views(rest@) =~= before_removal.subrange(i as int, n as int),
                views(kept@) == before_removal.subrange(0, i as int).filter(without_id(machine_id)),
            decreases rest.len(),
        {
            let ghost rest_before = rest@;
            let ghost kept_before = kept@;
            let m = rest.remove(0);
            proof {
                assert(views(rest_before)[0] == m@);
                assert(m@ == before_removal[i as int]);
                assert forall|k: int| 0 <= k < rest@.len() implies #[trigger] views(rest@)[k]
                    == before_removal.subrange(i + 1, n as int)[k] by {
                    assert(rest@[k] == rest_before[k + 1]);
                    assert(views(rest_before)[k + 1] == before_removal.subrange(i as int, n as int)[k
                        + 1]);
                }
                assert(views(rest@) =~= before_removal.subrange(i + 1, n as int));
                let prefix = before_removal.subrange(0, i + 1);
                assert(prefix.drop_last() =~= before_removal.subrange(0, i as int));
                assert(prefix.last() == before_removal[i as int]);
                reveal_with_fuel(Seq::filter, 1);
                assert(prefix.filter(without_id(machine_id)) == if without_id(machine_id)(before_removal[i as int]) {
                    before_removal.subrange(0, i as int).filter(without_id(machine_id)).push(before_removal[i as int])
                } else {
                    before_removal.subrange(0, i as int).filter(without_id(machine_id))
                });
            }
            if m.machine_id != machine_id {
                kept.push(m);
                assert(views(kept@) =~= views(kept_before).push(before_removal[i as int]));
            }
            i = i + 1;
        }
        assert(before_removal.subrange(0, n as int) =~= before_removal);
        self.machines = kept;
    }

    /// Moves the first machine with `machine_id` to `cell`, unless another
    /// machine already sits there. Returns whether a machine was moved.
    pub fn move_machine(&mut self, machine_id: u128, cell: GridPos) -> (moved: bool)
        ensures
            moved == (!occupied_by_other(old(self)@, machine_id, cell) && index_of_id(
                old(self)@,
                machine_id,
            ) is Some),
            final(self)@ == spec_move(old(self)@, machine_id, cell),
    {
        let mut i: usize = 0;
        while i < self.machines.len()
            invariant
                0 <= i <= self.machines.len(),
                forall|j: int|
                    0 <= j < i ==> !(#[trigger] self@[j].grid_pos == cell && self@[j].machine_id
                        != machine_id),
            decreases self.machines.len() - i,
        {
            if self.machines[i].grid_pos.0 == cell.0 && self.machines[i].grid_pos.1 == cell.1
                && self.machines[i].machine_id != machine_id {
                assert(self@[i as int].grid_pos == cell);
                return false;
            }
            i = i + 1;
        }
        assert(!occupied_by_other(self@, machine_id, cell));
        proof {
            lemma_first_index_from(self@, with_id(machine_id), 0);
        }
        match self.find_machine(machine_id) {
            Some(k) => {
                let ghost before = self@;
                let mut m = self.machines.remove(k);
                m.grid_pos = cell;
                self.machines.insert(k, m);
                assert(self@ =~= before.update(
                    k as int,
                    MachineView { grid_pos: cell, ..before[k as int] },
                ));
                true
            },
            None => false,
        }
    }

    /// The layout editor's move: moves the machine `machine_id` one cell
    /// towards `edge`, if that cell is on the grid and no other machine sits
    /// there. Returns whether it moved.
    pub fn move_towards(&mut self, machine_id: u128, edge: Edge) -> (moved: bool)
        ensures
            moved == moves_towards(old(self)@, machine_id, edge),
            final(self)@ == spec_move_towards(old(self)@, machine_id, edge),
    {
        proof {
            lemma_first_index_from(self@, with_id(machine_id), 0);
        }
        let i = match self.find_machine(machine_id) {
            Some(i) => i,
            None => return false,
        };
        let target = match neighbor_cell_of(self.machines[i].grid_pos, edge) {
            Some(c) => c,
            None => return false,
        };
        if !(target.0 < GRID_SIZE && target.1 < GRID_SIZE) {
            return false;
        }
        self.move_machine(machine_id, target)
    }

    /// Puts a machine with these details in the first free cell, replacing
    /// the first entry with the same id if there is one. Returns whether a
    /// free cell was found; the workspace is unchanged if none was.
    pub fn place_in_free_cell(
        &mut self,
        machine_id: u128,
        hostname: String,
        ip: String,
        screens: Vec<ScreenInfo>,
    ) -> (placed: bool)
        ensures
            placed == spec_next_free(old(self)@) is Some,
            final(self)@ == match spec_next_free(old(self)@) {
                Some(c) => spec_add_or_update(
                    old(self)@,
                    MachineView {
                        machine_id,
                        hostname: hostname@,
                        ip: ip@,
                        grid_pos: c,
                        screens: screens@,
                    },
                ),
                None => old(self)@,
            },
    {
        match self.next_free_grid_pos() {
            Some(pos) => {
                self.add_or_update_machine(
                    MachineLayout { machine_id, hostname, ip, grid_pos: pos, screens },
                );
                true
            },
            None => false,
        }
    }

    /// Adds this machine, under its hostname, in the first free cell unless a
    /// machine with the same hostname is already in the workspace. Returns
    /// whether it was added.
    pub fn register_local_machine(
        &mut self,
        machine_id: u128,
        hostname: String,
        ip: String,
        screens: Vec<ScreenInfo>,
    ) -> (added: bool)
        ensures
            has_hostname(old(self)@, hostname@) ==> !added && final(self)@ == old(self)@,
            !has_hostname(old(self)@, hostname@) ==> added == spec_next_free(old(self)@) is Some
                && final(self)@ == match spec_next_free(old(self)@) {
                Some(c) => spec_add_or_update(
                    old(self)@,
                    MachineView {
                        machine_id,
                        hostname: hostname@,
                        ip: ip@,
                        grid_pos: c,
                        screens: screens@,
                    },
                ),
                None => old(self)@,
            },
    {
        let mut i: usize = 0;
        while i < self.machines.len()
            invariant
                0 <= i <= self.machines.len(),
                forall|j: int| 0 <= j < i ==> #[trigger] self@[j].hostname != hostname@,
            decreases self.machines.len() - i,
        {
            if self.machines[i].hostname == hostname {
                assert(self@[i as int].hostname == hostname@);
                return false;
            }
            i = i + 1;
        }
        self.place_in_free_cell(machine_id, hostname, ip, screens)
    }

    /// The machine across `edge` from the machine with `machine_id`, if any.
    pub fn neighbor_at_edge(&self, machine_id: u128, edge: Edge) -> (r: Option<&MachineLayout>)
        ensures
            match neighbor_index(self@, machine_id, edge) {
                Some(j) => r matches Some(m) && m@ == self@[j],
                None => r is None,
            },
    {
        proof {
            lemma_first_index_from(self@, with_id(machine_id), 0);
        }
        let i = match self.find_machine(machine_id) {
            Some(i) => i,
            None => return None,
        };
        let cell = match neighbor_cell_of(self.machines[i].grid_pos, edge) {
            Some(c) => c,
            None => return None,
        };
        proof {
            lemma_first_index_from(self@, at_cell(cell), 0);
        }
        match self.find_at(cell) {
            Some(j) => Some(&self.machines[j]),
            None => None,
        }
    }

    /// The side facing `edge`.
    pub fn opposite_edge(edge: Edge) -> (r: Edge)
        ensures
            r == spec_opposite_edge(edge),
    {
        match edge {
            Edge::Right => Edge::Left,
            Edge::Left => Edge::Right,
            Edge::Top => Edge::Bottom,
            Edge::Bottom => Edge::Top,
        }
    }

    /// The first free grid cell, row by row and left to right.
    pub fn next_free_grid_pos(&self) -> (r: Option<GridPos>)
        ensures
            r == spec_next_free(self@),
    {
        let mut k: u8 = 0;
        while k < 4
            invariant
                0 <= k <= 4,
                spec_next_free(self@) == free_cell_from(self@, k as nat),
            decreases 4 - k,
        {
            let cell = (k % 2, k / 2);
            assert(cell == cell_in_order(k as nat));
            if !self.is_occupied(cell) {
                return Some(cell);
            }
            k = k + 1;
        }
        None
    }
}

/// The cell one step towards `edge` from `cell`, if the coordinates allow it.
pub fn neighbor_cell_of(cell: GridPos, edge: Edge) -> (r: Option<GridPos>)
    ensures
        r == neighbor_cell(cell, edge),
{
    match edge {
        Edge::Right => if cell.0 == 255 { None } else { Some((cell.0 + 1, cell.1)) },
        Edge::Left => if cell.0 == 0 { None } else { Some((cell.0 - 1, cell.1)) },
        Edge::Bottom => if cell.1 == 255 { None } else { Some((cell.0, cell.1 + 1)) },
        Edge::Top => if cell.1 == 0 { None } else { Some((cell.0, cell.1 - 1)) },
    }
}

/// Law: the side facing the side facing an edge is that edge.
pub proof fn lemma_opposite_edge_involutive(edge: Edge)
    ensures
        spec_opposite_edge(spec_opposite_edge(edge)) == edge,
{
}

proof fn lemma_free_cell_from(ms: Seq<MachineView>, k: nat)
    ensures
        free_cell_from(ms, k) matches Some(c) ==> !occupied(ms, c) && c.0 < GRID_SIZE && c.1
            < GRID_SIZE,
        free_cell_from(ms, k) is None ==> forall|j: nat|
            k <= j < 4 ==> occupied(ms, #[trigger] cell_in_order(j)),
    decreases 4 - k,
{
    if k < 4 {
        lemma_free_cell_from(ms, k + 1);
    }
}

/// Law: the free cell offered for a new machine is on the grid and empty, and
/// none is offered only when all four cells are taken.
pub proof fn lemma_next_free_is_free(ms: Seq<MachineView>)
    ensures
        spec_next_free(ms) matches Some(c) ==> !occupied(ms, c) && c.0 < GRID_SIZE && c.1
            < GRID_SIZE,
        spec_next_free(ms) is None ==> forall|x: u8, y: u8|
            x < GRID_SIZE && y < GRID_SIZE ==> #[trigger] occupied(ms, (x, y)),
{
    lemma_free_cell_from(ms, 0);
    if spec_next_free(ms) is None {
        assert forall|x: u8, y: u8| x < GRID_SIZE && y < GRID_SIZE implies #[trigger] occupied(
            ms,
            (x, y),
        ) by {
            let j = (y * 2 + x) as nat;
            assert(cell_in_order(j) == (x, y));
        }
    }
}

/// Law: placing a machine in the free cell the layout offers keeps the layout
/// consistent: at most four machines, no id twice, no cell twice. This covers
/// every way the program adds a machine (a discovered peer, a greeting peer,
/// the local machine).
pub proof fn lemma_placement_keeps_consistent(ms: Seq<MachineView>, m: MachineView)
    requires
        is_consistent(ms),
        spec_next_free(ms) == Some(m.grid_pos),
    ensures
        is_consistent(spec_add_or_update(ms, m)),
{
    lemma_free_cell_from(ms, 0);
    lemma_first_index_from(ms, with_id(m.machine_id), 0);
    let after = spec_add_or_update(ms, m);
    match index_of_id(ms, m.machine_id) {
        Some(i) => {
            assert forall|a: int, b: int|
                0 <= a < after.len() && 0 <= b < after.len() && a != b implies #[trigger] after[a].machine_id
                != #[trigger] after[b].machine_id by {
                if a == i {
                    assert(ms[i].machine_id == m.machine_id);
                } else if b == i {
                    assert(ms[i].machine_id == m.machine_id);
                }
            }
            assert forall|a: int, b: int|
                0 <= a < after.len() && 0 <= b < after.len() && a != b implies after[a].grid_pos
                != after[b].grid_pos by {
                if a == i {
                    assert(ms[b].grid_pos != m.grid_pos);
                } else if b == i {
                    assert(ms[a].grid_pos != m.grid_pos);
                }
            }
        },
        None => {
            if ms.len() < MAX_MACHINES {
                assert forall|a: int, b: int|
                    0 <= a < after.len() && 0 <= b < after.len() && a != b implies #[trigger] after[a].machine_id
                    != #[trigger] after[b].machine_id by {
                    if a == ms.len() {
                        assert(!with_id(m.machine_id)(ms[b]));
                    } else if b == ms.len() {
                        assert(!with_id(m.machine_id)(ms[a]));
                    }
                }
                assert forall|a: int, b: int|
                    0 <= a < after.len() && 0 <= b < after.len() && a != b implies after[a].grid_pos
                    != after[b].grid_pos by {
                    if a == ms.len() {
                        assert(ms[b].grid_pos != m.grid_pos);
                    } else if b == ms.len() {
                        assert(ms[a].grid_pos != m.grid_pos);
                    }
                }
            }
        },
    }
}

/// Law: moving a machine keeps the layout consistent.
pub proof fn lemma_move_keeps_consistent(ms: Seq<MachineView>, id: u128, cell: GridPos)
    requires
        is_consistent(ms),
    ensures
        is_consistent(spec_move(ms, id, cell)),
{
    lemma_first_index_from(ms, with_id(id), 0);
    if !occupied_by_other(ms, id, cell) {
        if let Some(i) = index_of_id(ms, id) {
            let after = spec_move(ms, id, cell);
            assert forall|a: int, b: int|
                0 <= a < after.len() && 0 <= b < after.len() && a != b implies after[a].grid_pos
                != after[b].grid_pos by {
                if a == i {
                    assert(ms[b].machine_id != id);
                    assert(!(ms[b].grid_pos == cell && ms[b].machine_id != id));
                } else if b == i {
                    assert(ms[a].machine_id != id);
                    assert(!(ms[a].grid_pos == cell && ms[a].machine_id != id));
                }
            }
            assert forall|a: int, b: int|
                0 <= a < after.len() && 0 <= b < after.len() && a != b implies #[trigger] after[a].machine_id
                != #[trigger] after[b].machine_id by {
                assert(after[a].machine_id == ms[a].machine_id);
                assert(after[b].machine_id == ms[b].machine_id);
            }
        }
    }
}

/// Law: in a consistent layout, if B is A's neighbour across an edge, then B
/// is another machine and A is B's neighbour across the opposite edge.
pub proof fn lemma_neighbors_are_mutual(ms: Seq<MachineView>, id: u128, edge: Edge)
    requires
        is_consistent(ms),
        neighbor_index(ms, id, edge) is Some,
    ensures
        ms[neighbor_index(ms, id, edge)->0].machine_id != id,
        neighbor_index(ms, ms[neighbor_index(ms, id, edge)->0].machine_id, spec_opposite_edge(edge))
            == index_of_id(ms, id),
{
    lemma_first_index_from(ms, with_id(id), 0);
    let i = index_of_id(ms, id)->0;
    let cell = neighbor_cell(ms[i].grid_pos, edge)->0;
    lemma_first_index_from(ms, at_cell(cell), 0);
    let j = neighbor_index(ms, id, edge)->0;
    assert(ms[j].grid_pos == cell);
    assert(cell != ms[i].grid_pos);
    assert(j != i);
    let bid = ms[j].machine_id;
    lemma_first_index_from(ms, with_id(bid), 0);
    assert(index_of_id(ms, bid) == Some(j));
    let back = neighbor_cell(ms[j].grid_pos, spec_opposite_edge(edge))->0;
    assert(neighbor_cell(ms[j].grid_pos, spec_opposite_edge(edge)) == Some(ms[i].grid_pos));
    assert(back == ms[i].grid_pos);
    lemma_first_index_from(ms, at_cell(back), 0);
    assert(index_at(ms, back) == Some(i));
}

proof fn lemma_filter_sub_consistent(s: Seq<MachineView>, p: spec_fn(MachineView) -> bool)
    requires
        is_consistent(s),
    ensures
        is_consistent(s.filter(p)),
        s.filter(p).len() <= s.len(),
        forall|a: int|
            0 <= a < s.filter(p).len() ==> exists|j: int|
                0 <= j < s.len() && #[trigger] s.filter(p)[a] == s[j],
        forall|a: int| 0 <= a < s.filter(p).len() ==> p(#[trigger] s.filter(p)[a]),
    decreases s.len(),
{
    reveal_with_fuel(Seq::filter, 1);
    if s.len() > 0 {
        let rest = s.drop_last();
        let x = s.last();
        assert(is_consistent(rest)) by {
            assert forall|i: int, j: int|
                0 <= i < rest.len() && 0 <= j < rest.len() && i != j implies #[trigger] rest[i].machine_id
                != #[trigger] rest[j].machine_id by {
                assert(rest[i] == s[i] && rest[j] == s[j]);
            }
            assert forall|i: int, j: int|
                0 <= i < rest.len() && 0 <= j < rest.len() && i != j implies rest[i].grid_pos
                != rest[j].grid_pos by {
                assert(rest[i] == s[i] && rest[j] == s[j]);
            }
        }
        lemma_filter_sub_consistent(rest, p);
        let fr = rest.filter(p);
        assert(s.filter(p) == if p(x) { fr.push(x) } else { fr });
        if p(x) {
            let f = fr.push(x);
            assert forall|a: int| 0 <= a < f.len() implies exists|j: int|
                0 <= j < s.len() && #[trigger] f[a] == s[j] by {
                if a < fr.len() {
                    let j = choose|j: int| 0 <= j < rest.len() && fr[a] == rest[j];
                    assert(f[a] == s[j]);
                } else {
                    assert(f[a] == s[s.len() - 1]);
                }
            }
            assert forall|a: int, b: int|
                0 <= a < f.len() && 0 <= b < f.len() && a != b implies #[trigger] f[a].machine_id
                != #[trigger] f[b].machine_id && f[a].grid_pos != f[b].grid_pos by {
                if a < fr.len() && b < fr.len() {
                    assert(f[a] == fr[a] && f[b] == fr[b]);
                } else if a < fr.len() {
                    let j = choose|j: int| 0 <= j < rest.len() && fr[a] == rest[j];
                    assert(f[a] == s[j]);
                    assert(f[b] == s[s.len() - 1]);
                } else {
                    let j = choose|j: int| 0 <= j < rest.len() && fr[b] == rest[j];
                    assert(f[b] == s[j]);
                    assert(f[a] == s[s.len() - 1]);
                }
            }
            assert forall|a: int| 0 <= a < f.len() implies p(#[trigger] f[a]) by {
                if a < fr.len() {
                    assert(f[a] == fr[a]);
                }
            }
        } else {
            assert forall|a: int| 0 <= a < fr.len() implies exists|j: int|
                0 <= j < s.len() && #[trigger] fr[a] == s[j] by {
                let j = choose|j: int| 0 <= j < rest.len() && fr[a] == rest[j];
                assert(fr[a] == s[j]);
            }
        }
    }
}

/// Law: removing a machine keeps the layout consistent, and no machine with
/// that id is left.
pub proof fn lemma_remove_keeps_consistent(ms: Seq<MachineView>, id: u128)
    requires
        is_consistent(ms),
    ensures
        is_consistent(ms.filter(without_id(id))),
        !has_id(ms.filter(without_id(id)), id),
{
    lemma_filter_sub_consistent(ms, without_id(id));
    let f = ms.filter(without_id(id));
    assert forall|a: int| 0 <= a < f.len() implies #[trigger] f[a].machine_id != id by {
        assert(without_id(id)(f[a]));
    }
}

/// Law: the layout editor keeps a consistent layout on the grid. A move
/// changes nothing but the moved machine's cell, and moves it only to the
/// free grid cell next to it.
pub proof fn lemma_editor_move_keeps_grid(ms: Seq<MachineView>, id: u128, edge: Edge)
    requires
        is_consistent(ms),
        all_in_grid(ms),
    ensures
        is_consistent(spec_move_towards(ms, id, edge)),
        all_in_grid(spec_move_towards(ms, id, edge)),
        spec_move_towards(ms, id, edge).len() == ms.len(),
        forall|k: int|
            0 <= k < ms.len() ==> #[trigger] spec_move_towards(ms, id, edge)[k] == (MachineView {
                grid_pos: spec_move_towards(ms, id, edge)[k].grid_pos,
                ..ms[k]
            }),
        moves_towards(ms, id, edge) ==> ({
            let i = index_of_id(ms, id)->0;
            let c = grid_step(ms[i].grid_pos, edge)->0;
            &&& spec_move_towards(ms, id, edge)[i].grid_pos == c
            &&& !occupied(ms, c)
        }),
        !moves_towards(ms, id, edge) ==> spec_move_towards(ms, id, edge) == ms,
{
    lemma_first_index_from(ms, with_id(id), 0);
    if let Some(i) = index_of_id(ms, id) {
        if let Some(c) = grid_step(ms[i].grid_pos, edge) {
            lemma_move_keeps_consistent(ms, id, c);
            let after = spec_move(ms, id, c);
            assert forall|k: int| 0 <= k < after.len() implies in_grid(#[trigger] after[k].grid_pos) by {
                if k != i {
                    assert(after[k] == ms[k]);
                }
            }
            if moves_towards(ms, id, edge) {
                assert(c != ms[i].grid_pos);
                assert forall|k: int| 0 <= k < ms.len() implies #[trigger] ms[k].grid_pos != c by {
                    if k != i {
                        assert(!(ms[k].grid_pos == c && ms[k].machine_id != id));
                        assert(ms[k].machine_id != ms[i].machine_id);
                    }
                }
            }
        }
    }
}

/// Whether no two machines share an id.
pub open spec fn ids_distinct(ms: Seq<MachineView>) -> bool {
    forall|i: int, j: int|
        0 <= i < ms.len() && 0 <= j < ms.len() && i != j ==> #[trigger] ms[i].machine_id
            != #[trigger] ms[j].machine_id
}

/// Law: adding or updating any machine keeps at most four machines and no id
/// twice: a known id is updated in place, a new one is appended only while
/// there is room.
pub proof fn lemma_add_or_update_keeps_ids(ms: Seq<MachineView>, m: MachineView)
    requires
        ms.len() <= MAX_MACHINES,
        ids_distinct(ms),
    ensures
        spec_add_or_update(ms, m).len() <= MAX_MACHINES,
        ids_distinct(spec_add_or_update(ms, m)),
        has_id(spec_add_or_update(ms, m), m.machine_id) <==> (has_id(ms, m.machine_id)
            || ms.len() < MAX_MACHINES),
{
    lemma_first_index_from(ms, with_id(m.machine_id), 0);
    let after = spec_add_or_update(ms, m);
    match index_of_id(ms, m.machine_id) {
        Some(i) => {
            assert forall|a: int, b: int|
                0 <= a < after.len() && 0 <= b < after.len() && a != b implies #[trigger] after[a].machine_id
                != #[trigger] after[b].machine_id by {
                if a == i {
                    assert(ms[i].machine_id == m.machine_id);
                } else if b == i {
                    assert(ms[i].machine_id == m.machine_id);
                }
            }
            assert(after[i].machine_id == m.machine_id);
            assert(ms[i].machine_id == m.machine_id);
        },
        None => {
            assert(!has_id(ms, m.machine_id)) by {
                if has_id(ms, m.machine_id) {
                    let k = choose|k: int| 0 <= k < ms.len() && #[trigger] ms[k].machine_id == m.machine_id;
                    assert(with_id(m.machine_id)(ms[k]));
                }
            }
            if ms.len() < MAX_MACHINES {
                assert forall|a: int, b: int|
                    0 <= a < after.len() && 0 <= b < after.len() && a != b implies #[trigger] after[a].machine_id
                    != #[trigger] after[b].machine_id by {
                    if a == ms.len() {
                        assert(!with_id(m.machine_id)(ms[b]));
                    } else if b == ms.len() {
                        assert(!with_id(m.machine_id)(ms[a]));
                    }
                }
                assert(after[ms.len() as int].machine_id == m.machine_id);
            }
        },
    }
}

/// Law: the editor moves a machine to the grid cell next to it across any of
/// the four edges whenever no other machine sits there. The cell is given by
/// its coordinates: one column left or right, or one row up or down, of the
/// machine's cell, and on the 2×2 grid.
pub proof fn lemma_editor_moves_to_free_adjacent_cell(
    ms: Seq<MachineView>,
    id: u128,
    edge: Edge,
    i: int,
    c: GridPos,
)
    requires
        0 <= i < ms.len(),
        ms[i].machine_id == id,
        forall|k: int| 0 <= k < i ==> #[trigger] ms[k].machine_id != id,
        c.0 < 2 && c.1 < 2,
        match edge {
            Edge::Left => c.0 + 1 == ms[i].grid_pos.0 && c.1 == ms[i].grid_pos.1,
            Edge::Right => c.0 == ms[i].grid_pos.0 + 1 && c.1 == ms[i].grid_pos.1,
            Edge::Top => c.0 == ms[i].grid_pos.0 && c.1 + 1 == ms[i].grid_pos.1,
            Edge::Bottom => c.0 == ms[i].grid_pos.0 && c.1 == ms[i].grid_pos.1 + 1,
        },
        forall|k: int| 0 <= k < ms.len() && #[trigger] ms[k].grid_pos == c ==> ms[k].machine_id == id,
    ensures
        moves_towards(ms, id, edge),
        spec_move_towards(ms, id, edge).len() == ms.len(),
        spec_move_towards(ms, id, edge)[i].grid_pos == c,
        spec_move_towards(ms, id, edge)[i].machine_id == id,
{
    lemma_first_index_from(ms, with_id(id), 0);
    assert(index_of_id(ms, id) == Some(i)) by {
        if index_of_id(ms, id) != Some(i) {
            let k = index_of_id(ms, id)->0;
            assert(with_id(id)(ms[k]));
            assert(!with_id(id)(ms[i]));
        }
    }
    assert(neighbor_cell(ms[i].grid_pos, edge) == Some(c));
    assert(grid_step(ms[i].grid_pos, edge) == Some(c));
    assert(!occupied_by_other(ms, id, c));
}

} // verus!
