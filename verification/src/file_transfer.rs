//! State of incoming file transfers: which transfers are open, where each is
//! written and how many bytes have arrived.

use vstd::prelude::*;

verus! {

/// One incoming transfer.
#[derive(Debug)]
pub struct TransferState {
    pub transfer_id: u128,
    pub filename: String,
    pub size: u64,
    pub path: String,
    pub received: u64,
}

/// What a transfer entry holds, as mathematical values.
pub struct TransferView {
    pub transfer_id: u128,
    pub filename: Seq<char>,
    pub size: u64,
    pub path: Seq<char>,
    pub received: u64,
}

impl View for TransferState {
    type V = TransferView;

    open spec fn view(&self) -> TransferView {
        TransferView {
            transfer_id: self.transfer_id,
            filename: self.filename@,
            size: self.size,
            path: self.path@,
            received: self.received,
        }
    }
}

/// The open transfers, at most one per transfer id.
#[derive(Debug)]
pub struct TransferTable {
    pub transfers: Vec<TransferState>,
}

/// The index of the transfer with this id in `ts`, if any.
pub open spec fn transfer_index(ts: Seq<TransferView>, id: u128) -> Option<int> {
    if exists|i: int| 0 <= i < ts.len() && #[trigger] ts[i].transfer_id == id {
        Some(choose|i: int| 0 <= i < ts.len() && #[trigger] ts[i].transfer_id == id)
    } else {
        None
    }
}

/// `a + b`, or `u64::MAX` if that is larger.
pub open spec fn saturating_sum(a: u64, b: u64) -> u64 {
    if a + b > u64::MAX { u64::MAX } else { (a + b) as u64 }
}

impl View for TransferTable {
    type V = Seq<TransferView>;

    open spec fn view(&self) -> Seq<TransferView> {
        self.transfers@.map_values(|t: TransferState| t@)
    }
}

impl TransferTable {
    /// No two open transfers share an id.
    pub open spec fn wf(&self) -> bool {
        forall|i: int, j: int|
            0 <= i < self@.len() && 0 <= j < self@.len() && i != j ==> #[trigger] self@[i].transfer_id
                != #[trigger] self@[j].transfer_id
    }

    /// A table with no open transfer.
    pub fn new() -> (t: Self)
        ensures
            t@ == Seq::<TransferView>::empty(),
            t.wf(),
    {
        let t = TransferTable { transfers: Vec::new() };
        assert(t@ =~= Seq::<TransferView>::empty());
        t
    }

    /// The index of the transfer with this id.
    pub fn find(&self, transfer_id: u128) -> (r: Option<usize>)
        requires
            self.wf(),
        ensures
            r matches Some(i) ==> transfer_index(self@, transfer_id) == Some(i as int),
            r is None ==> transfer_index(self@, transfer_id) is None,
    {
        let mut i: usize = 0;
        while i < self.transfers.len()
            invariant
                0 <= i <= self.transfers.len(),
                self.wf(),
                forall|j: int| 0 <= j < i ==> #[trigger] self@[j].transfer_id != transfer_id,
            decreases self.transfers.len() - i,
        {
            if self.transfers[i].transfer_id == transfer_id {
                assert(self@[i as int].transfer_id == transfer_id);
                proof {
                    let c = choose|c: int|
                        0 <= c < self@.len() && #[trigger] self@[c].transfer_id == transfer_id;
                    assert(c == i);
                }
                return Some(i);
            }
            i = i + 1;
        }
        None
    }

    /// Whether a transfer with this id is open.
    pub fn contains(&self, transfer_id: u128) -> (r: bool)
        requires
            self.wf(),
        ensures
            r == transfer_index(self@, transfer_id) is Some,
    {
        self.find(transfer_id).is_some()
    }

    /// Opens a transfer (after its file was created), replacing any open
    /// transfer with the same id; nothing has been received yet.
    pub fn begin(&mut self, transfer_id: u128, filename: String, size: u64, path: String)
        requires
            old(self).wf(),
        ensures
            final(self).wf(),
            ({
                let entry = TransferView {
                    transfer_id,
                    filename: filename@,
                    size,
                    path: path@,
                    received: 0,
                };
                final(self)@ == match transfer_index(old(self)@, transfer_id) {
                    Some(i) => old(self)@.update(i, entry),
                    None => old(self)@.push(entry),
                }
            }),
    {
        let state = TransferState { transfer_id, filename, size, path, received: 0 };
        let ghost before = self@;
        let ghost entry = state@;
        match self.find(transfer_id) {
            Some(i) => {
                self.transfers.set(i, state);
                assert(self@ =~= before.update(i as int, entry));
            },
            None => {
                self.transfers.push(state);
                assert(self@ =~= before.push(entry));
            },
        }
    }

    /// Counts `len` more received bytes for an open transfer (saturating);
    /// an unknown transfer is ignored.
    pub fn record_chunk(&mut self, transfer_id: u128, len: u64)
        requires
            old(self).wf(),
        ensures
            final(self).wf(),
            final(self)@ == match transfer_index(old(self)@, transfer_id) {
                Some(i) => old(self)@.update(
                    i,
                    TransferView {
                        received: saturating_sum(old(self)@[i].received, len),
                        ..old(self)@[i]
                    },
                ),
                None => old(self)@,
            },
    {
        match self.find(transfer_id) {
            Some(i) => {
                let ghost before = self@;
                let mut state = self.transfers.remove(i);
                state.received = state.received.saturating_add(len);
                self.transfers.insert(i, state);
                assert(self@ =~= before.update(
                    i as int,
                    TransferView { received: saturating_sum(before[i as int].received, len), ..before[i as int] },
                ));
            },
            None => {},
        }
    }

    /// Closes a transfer and returns what was recorded for it, or `None` if
    /// no transfer with this id is open.
    pub fn finish(&mut self, transfer_id: u128) -> (r: Option<TransferState>)
        requires
            old(self).wf(),
        ensures
            final(self).wf(),
            match transfer_index(old(self)@, transfer_id) {
                Some(i) => r matches Some(t) && t@ == old(self)@[i] && final(self)@ == old(self)@.remove(i),
                None => r is None && final(self)@ == old(self)@,
            },
    {
        match self.find(transfer_id) {
            Some(i) => {
                let ghost before = self@;
                let t = self.transfers.remove(i);
                assert(self@ =~= before.remove(i as int));
                Some(t)
            },
            None => None,
        }
    }
}

/// Law: once a transfer is finished it is no longer open, and every other
/// open transfer is still open.
pub proof fn lemma_finish_forgets(before: Seq<TransferView>, after: Seq<TransferView>, id: u128, other: u128)
    requires
        forall|i: int, j: int|
            0 <= i < before.len() && 0 <= j < before.len() && i != j ==> #[trigger] before[i].transfer_id
                != #[trigger] before[j].transfer_id,
        transfer_index(before, id) matches Some(i) && after == before.remove(i),
        other != id,
    ensures
        transfer_index(after, id) is None,
        transfer_index(before, other) is Some <==> transfer_index(after, other) is Some,
{
    let i = transfer_index(before, id)->0;
    if exists|k: int| 0 <= k < after.len() && #[trigger] after[k].transfer_id == id {
        let k = choose|k: int| 0 <= k < after.len() && #[trigger] after[k].transfer_id == id;
        if k < i {
            assert(before[k].transfer_id == id);
        } else {
            assert(before[k + 1].transfer_id == id);
        }
    }
    if exists|k: int| 0 <= k < before.len() && #[trigger] before[k].transfer_id == other {
        let k = choose|k: int| 0 <= k < before.len() && #[trigger] before[k].transfer_id == other;
        if k < i {
            assert(after[k].transfer_id == other);
        } else {
            assert(k != i);
            assert(after[k - 1].transfer_id == other);
        }
    }
    if exists|k: int| 0 <= k < after.len() && #[trigger] after[k].transfer_id == other {
        let k = choose|k: int| 0 <= k < after.len() && #[trigger] after[k].transfer_id == other;
        if k < i {
            assert(before[k].transfer_id == other);
        } else {
            assert(before[k + 1].transfer_id == other);
        }
    }
}

} // verus!
