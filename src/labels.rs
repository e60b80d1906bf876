//! Labels: addressable points of generated code, keyed by program position.
use vstd::prelude::*;

verus! {

/// A label key: a program position and a sub-index. Sub-index `MAIN` is the
/// position's entry point, which jumps target; `INNER` is a re-entry point
/// private to the code of that position.
#[derive(Clone, Copy, Debug, PartialEq, Eq, Structural)]
pub struct LabelKey {
    pub pos: usize,
    pub sub: usize,
}

/// The sub-index of a position's entry point.
pub const MAIN: usize = 0;
/// The sub-index of a position's internal re-entry point.
pub const INNER: usize = 1;

/// A table from label keys to byte offsets in the output buffer.
///
/// `rows[pos][sub]` holds the offset of label `(pos, sub)`, if defined.
pub struct LabelTable {
    rows: Vec<Vec<Option<usize>>>,
}

impl View for LabelTable {
    type V = Map<LabelKey, int>;

    closed spec fn view(&self) -> Map<LabelKey, int> {
        Map::new(
            |k: LabelKey|
                k.pos < self.rows@.len() && k.sub < self.rows@[k.pos as int]@.len()
                    && self.rows@[k.pos as int]@[k.sub as int] is Some,
            |k: LabelKey| self.rows@[k.pos as int]@[k.sub as int]->Some_0 as int,
        )
    }
}

impl LabelTable {
    /// An empty table.
    pub fn new() -> (r: LabelTable)
        ensures
            r@ == Map::<LabelKey, int>::empty(),
    {
        let r = LabelTable { rows: Vec::new() };
        assert(r@ =~= Map::<LabelKey, int>::empty());
        r
    }

    /// Defines (or redefines) label `k` at `offset`.
    pub fn insert(&mut self, k: LabelKey, offset: usize)
        ensures
            final(self)@ == old(self)@.insert(k, offset as int),
    {
        let ghost m0 = self@;
        while self.rows.len() <= k.pos
            invariant
                self@ == m0,
            decreases k.pos + 1 - self.rows.len(),
        {
            self.rows.push(Vec::new());
            assert(self@ =~= m0);
        }
        let ghost before = self.rows@;
        let mut row: Vec<Option<usize>> = Vec::new();
        std::mem::swap(&mut row, &mut self.rows[k.pos]);
        let ghost orig = row@;
        let ghost mid = self.rows@;
        while row.len() <= k.sub
            invariant
                self.rows@ == mid,
                orig.len() <= row@.len(),
                forall|j: int| 0 <= j < orig.len() ==> row@[j] == orig[j],
                forall|j: int| orig.len() <= j < row@.len() ==> row@[j] is None,
            decreases k.sub + 1 - row.len(),
        {
            row.push(None);
        }
        row.set(k.sub, Some(offset));
        self.rows.set(k.pos, row);
        assert(self.rows@ =~= before.update(k.pos as int, row));
        assert(self@ =~= m0.insert(k, offset as int));
    }

    /// The offset of label `k`, if it is defined.
    pub fn get(&self, k: LabelKey) -> (r: Option<usize>)
        ensures
            r is Some <==> self@.contains_key(k),
            r is Some ==> r->Some_0 as int == self@[k],
    {
        if k.pos < self.rows.len() && k.sub < self.rows[k.pos].len() {
            self.rows[k.pos][k.sub]
        } else {
            None
        }
    }
}

} // verus!
