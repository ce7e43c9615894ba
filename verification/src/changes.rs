//! Per-tick change tracking: while the engine runs, every visible cell
//! write is recorded as a (chunk, cell, color) entry, and a render sink
//! consumes and clears the accumulated diff once per tick.  A chunk appears
//! at most once as a key; repeated writes to the same chunk append to its
//! existing list.

use crate::cell::CellColor;
use crate::coords::{ChunkCellPosition, ChunkPosition};
use smallvec::SmallVec;
use vstd::prelude::*;

verus! {

/// One recorded cell write: the local position and the color now visible
/// there.
#[derive(Clone, Copy, PartialEq, Eq, Structural, Debug)]
pub struct CellChange {
    pub cell_position: ChunkCellPosition,
    pub new_color: CellColor,
}

/// One chunk's list of recorded cell changes, held in a small-vector of the
/// smallvec crate so that the common case of few changes per chunk stays
/// inline.  The struct is opaque to the verifier; sv_contents names what it
/// holds, and the sv_ wrappers below say how each operation changes that.
#[verifier::external_body]
pub struct CellChangeList {
    items: SmallVec<[CellChange; 64]>,
}

/// The cell changes held by a chunk's record, in append order.
pub uninterp spec fn sv_contents(v: CellChangeList) -> Seq<CellChange>;

/// Relies on smallvec::SmallVec::new: a freshly constructed vector holds no
/// items.
#[verifier::external_body]
fn sv_new() -> (r: CellChangeList)
    ensures
        sv_contents(r) == Seq::<CellChange>::empty(),
{
    CellChangeList { items: SmallVec::new() }
}

/// Relies on smallvec::SmallVec::push: the item is appended after the
/// existing ones.
#[verifier::external_body]
fn sv_push(v: &mut CellChangeList, item: CellChange)
    ensures
        sv_contents(*final(v)) == sv_contents(*old(v)).push(item),
{
    v.items.push(item)
}

/// Relies on smallvec::SmallVec::extend_from_slice: the slice's items are
/// appended in order after the existing ones.
#[verifier::external_body]
fn sv_extend_from_slice(v: &mut CellChangeList, items: &[CellChange])
    ensures
        sv_contents(*final(v)) == sv_contents(*old(v)) + items@,
{
    v.items.extend_from_slice(items)
}

/// Relies on smallvec::SmallVec::len: the number of items held.
#[verifier::external_body]
fn sv_len(v: &CellChangeList) -> (r: usize)
    ensures
        r == sv_contents(*v).len(),
{
    v.items.len()
}

/// Relies on smallvec::SmallVec's Index impl: position i holds the i-th
/// item in append order.
#[verifier::external_body]
fn sv_get(v: &CellChangeList, i: usize) -> (r: CellChange)
    requires
        i < sv_contents(*v).len(),
    ensures
        r == sv_contents(*v)[i as int],
{
    v.items[i]
}

/// The changes recorded for one chunk during the current tick, in append
/// order; rendering them sequentially gives last-write-wins semantics.
pub struct ChunkChange {
    pub chunk_position: ChunkPosition,
    pub cell_changes: CellChangeList,
}

/// The mathematical model of one chunk's record.
#[verifier::ext_equal]
pub ghost struct ChunkChangeView {
    pub chunk_position: ChunkPosition,
    pub cell_changes: Seq<CellChange>,
}

impl View for ChunkChange {
    type V = ChunkChangeView;

    open spec fn view(&self) -> ChunkChangeView {
        ChunkChangeView {
            chunk_position: self.chunk_position,
            cell_changes: sv_contents(self.cell_changes),
        }
    }
}

impl ChunkChange {
    /// The number of cell changes recorded for this chunk.
    pub fn len(&self) -> (r: usize)
        ensures
            r == self@.cell_changes.len(),
    {
        sv_len(&self.cell_changes)
    }

    /// The i-th recorded cell change, in append order.
    pub fn get(&self, i: usize) -> (r: CellChange)
        requires
            i < self@.cell_changes.len(),
        ensures
            r == self@.cell_changes[i as int],
    {
        sv_get(&self.cell_changes, i)
    }

    /// The recorded cell changes as a plain vector, in append order.
    pub fn to_vec(&self) -> (r: Vec<CellChange>)
        ensures
            r@ == self@.cell_changes,
    {
        let n = sv_len(&self.cell_changes);
        let mut out: Vec<CellChange> = Vec::new();
        let mut i: usize = 0;
        while i < n
            invariant
                i <= n,
                n == self@.cell_changes.len(),
                out@ == self@.cell_changes.subrange(0, i as int),
            decreases n - i,
        {
            out.push(sv_get(&self.cell_changes, i));
            proof {
                assert(out@ =~= self@.cell_changes.subrange(0, i + 1));
            }
            i = i + 1;
        }
        proof {
            assert(out@ =~= self@.cell_changes);
        }
        out
    }
}

/// The index of the record keyed by the given chunk, scanning from the
/// front; None when no record holds that chunk.
pub open spec fn spec_match_index(cs: Seq<ChunkChangeView>, cp: ChunkPosition) -> Option<int>
    decreases cs.len(),
{
    if cs.len() == 0 {
        None
    } else if cs[0].chunk_position == cp {
        Some(0int)
    } else {
        match spec_match_index(cs.drop_first(), cp) {
            None => None,
            Some(j) => Some(j + 1),
        }
    }
}

/// What the match index means: None exactly when no record holds the
/// chunk, and Some(i) exactly at the first record that does.
pub proof fn lemma_match_index_props(cs: Seq<ChunkChangeView>, cp: ChunkPosition)
    ensures
        match spec_match_index(cs, cp) {
            None => forall|j: int|
                0 <= j < cs.len() ==> (#[trigger] cs[j]).chunk_position != cp,
            Some(i) => 0 <= i < cs.len() && cs[i].chunk_position == cp && forall|j: int|
                0 <= j < i ==> (#[trigger] cs[j]).chunk_position != cp,
        },
    decreases cs.len(),
{
    if cs.len() != 0 && cs[0].chunk_position != cp {
        let rest = cs.drop_first();
        lemma_match_index_props(rest, cp);
        match spec_match_index(rest, cp) {
            None => {
                assert forall|j: int| 0 <= j < cs.len() implies (#[trigger] cs[j]).chunk_position
                    != cp by {
                    if j > 0 {
                        assert(cs[j] == rest[j - 1]);
                    }
                }
            },
            Some(i) => {
                assert(cs[i + 1] == rest[i]);
                assert forall|j: int| 0 <= j < i + 1 implies (#[trigger] cs[j]).chunk_position
                    != cp by {
                    if j > 0 {
                        assert(cs[j] == rest[j - 1]);
                    }
                }
            },
        }
    }
}

/// The record list after one cell change is filed under its chunk: the
/// first record keyed by that chunk gains the entry, or a fresh record is
/// appended when none exists.
pub open spec fn spec_add_cell_change(
    cs: Seq<ChunkChangeView>,
    cp: ChunkPosition,
    cc: CellChange,
) -> Seq<ChunkChangeView> {
    match spec_match_index(cs, cp) {
        None => cs.push(ChunkChangeView { chunk_position: cp, cell_changes: seq![cc] }),
        Some(i) => cs.update(
            i,
            ChunkChangeView { chunk_position: cp, cell_changes: cs[i].cell_changes.push(cc) },
        ),
    }
}

/// As spec_add_cell_change, for a batch of cell changes appended in order.
pub open spec fn spec_add_cell_changes(
    cs: Seq<ChunkChangeView>,
    cp: ChunkPosition,
    items: Seq<CellChange>,
) -> Seq<ChunkChangeView> {
    match spec_match_index(cs, cp) {
        None => cs.push(ChunkChangeView { chunk_position: cp, cell_changes: items }),
        Some(i) => cs.update(
            i,
            ChunkChangeView { chunk_position: cp, cell_changes: cs[i].cell_changes + items },
        ),
    }
}

/// The per-tick accumulation of chunk records, created empty at tick start
/// and consumed and cleared by the render sink at tick end.
pub struct ChunkChanges {
    chunk_changes: Vec<ChunkChange>,
}

impl View for ChunkChanges {
    type V = Seq<ChunkChangeView>;

    closed spec fn view(&self) -> Seq<ChunkChangeView> {
        Seq::new(self.chunk_changes@.len() as nat, |i: int| self.chunk_changes@[i]@)
    }
}

/// A chunk appears at most once as a key of the record list.
pub open spec fn changes_wf(cs: Seq<ChunkChangeView>) -> bool {
    forall|i: int, j: int|
        0 <= i < j < cs.len() ==> (#[trigger] cs[i]).chunk_position != (
        #[trigger] cs[j]).chunk_position
}

impl ChunkChanges {
    /// A chunk appears at most once as a key.
    pub open spec fn wf(self) -> bool {
        changes_wf(self@)
    }

    pub fn new() -> (r: Self)
        ensures
            r@ == Seq::<ChunkChangeView>::empty(),
            r.wf(),
    {
        let r = Self { chunk_changes: Vec::new() };
        proof {
            assert(r@ =~= Seq::<ChunkChangeView>::empty());
        }
        r
    }

    pub fn len(&self) -> (r: usize)
        ensures
            r == self@.len(),
    {
        self.chunk_changes.len()
    }

    /// The chunk key of the i-th record, in insertion order.
    pub fn chunk_position_at(&self, i: usize) -> (r: ChunkPosition)
        requires
            i < self@.len(),
        ensures
            r == self@[i as int].chunk_position,
    {
        self.chunk_changes[i].chunk_position
    }

    /// The cell changes of the i-th record as a plain vector.
    pub fn cell_changes_at(&self, i: usize) -> (r: Vec<CellChange>)
        requires
            i < self@.len(),
        ensures
            r@ == self@[i as int].cell_changes,
    {
        self.chunk_changes[i].to_vec()
    }

    /// Finds the first record keyed by the chunk, as the model does.
    fn find_index(&self, chunk_position: ChunkPosition) -> (r: Option<usize>)
        ensures
            match r {
                Some(i) => spec_match_index(self@, chunk_position) == Some(i as int),
                None => spec_match_index(self@, chunk_position) is None,
            },
    {
        let n = self.chunk_changes.len();
        let mut i: usize = 0;
        while i < n
            invariant
                i <= n,
                n == self@.len(),
                forall|j: int|
                    0 <= j < i ==> (#[trigger] self@[j]).chunk_position != chunk_position,
            decreases n - i,
        {
            proof {
                assert(self@[i as int] == self.chunk_changes@[i as int]@);
            }
            if self.chunk_changes[i].chunk_position == chunk_position {
                proof {
                    lemma_match_index_props(self@, chunk_position);
                }
                return Some(i);
            }
            i = i + 1;
        }
        proof {
            lemma_match_index_props(self@, chunk_position);
        }
        None
    }

    /// Files one cell change under its chunk, appending to the chunk's
    /// existing record or opening a fresh one.
    pub fn add_cell_change(&mut self, chunk_position: ChunkPosition, cell_change: CellChange)
        requires
            old(self).wf(),
        ensures
            final(self)@ == spec_add_cell_change(old(self)@, chunk_position, cell_change),
            final(self).wf(),
    {
        let ghost cs = self@;
        proof {
            lemma_match_index_props(cs, chunk_position);
        }
        match self.find_index(chunk_position) {
            Some(i) => {
                sv_push(&mut self.chunk_changes[i].cell_changes, cell_change);
                proof {
                    assert(self@ =~= spec_add_cell_change(cs, chunk_position, cell_change));
                }
            },
            None => {
                let mut cell_changes = sv_new();
                sv_push(&mut cell_changes, cell_change);
                self.chunk_changes.push(ChunkChange { chunk_position, cell_changes });
                proof {
                    assert(sv_contents(cell_changes) =~= seq![cell_change]);
                    assert(self@ =~= spec_add_cell_change(cs, chunk_position, cell_change));
                }
            },
        }
    }

    /// Files a batch of cell changes under one chunk, keeping their order.
    pub fn add_cell_changes(&mut self, chunk_position: ChunkPosition, cell_changes: &[CellChange])
        requires
            old(self).wf(),
        ensures
            final(self)@ == spec_add_cell_changes(old(self)@, chunk_position, cell_changes@),
            final(self).wf(),
    {
        let ghost cs = self@;
        proof {
            lemma_match_index_props(cs, chunk_position);
        }
        match self.find_index(chunk_position) {
            Some(i) => {
                sv_extend_from_slice(&mut self.chunk_changes[i].cell_changes, cell_changes);
                proof {
                    assert(self@ =~= spec_add_cell_changes(
                        cs,
                        chunk_position,
                        cell_changes@,
                    ));
                }
            },
            None => {
                let mut items = sv_new();
                sv_extend_from_slice(&mut items, cell_changes);
                self.chunk_changes.push(ChunkChange { chunk_position, cell_changes: items });
                proof {
                    assert(sv_contents(items) =~= cell_changes@);
                    assert(self@ =~= spec_add_cell_changes(
                        cs,
                        chunk_position,
                        cell_changes@,
                    ));
                }
            },
        }
    }

    /// Forgets every record; called once per tick by the render sink after
    /// it has consumed the diff.
    pub fn clear(&mut self)
        ensures
            final(self)@ == Seq::<ChunkChangeView>::empty(),
            final(self).wf(),
    {
        self.chunk_changes.clear();
        proof {
            assert(self@ =~= Seq::<ChunkChangeView>::empty());
        }
    }
}

} // verus!
