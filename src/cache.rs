use vstd::prelude::*;

verus! {

/// How a key or value cache is laid out: one entry of `kv_dim` elements for
/// each layer and each position, positions of a layer next to each other.
#[derive(Debug, Clone, Copy, PartialEq, Eq, Structural)]
pub struct CacheLayout {
    pub n_layers: usize,
    pub seq_len: usize,
    pub kv_dim: usize,
}

/// `cache` with `entry` written from index `start` on.
pub open spec fn written<T>(cache: Seq<T>, start: int, entry: Seq<T>) -> Seq<T> {
    Seq::new(
        cache.len(),
        |i: int|
            if start <= i < start + entry.len() {
                entry[i - start]
            } else {
                cache[i]
            },
    )
}

impl CacheLayout {
    /// Number of elements of a whole cache.
    pub open spec fn size(&self) -> int {
        self.n_layers * self.seq_len * self.kv_dim
    }

    pub open spec fn wf(&self) -> bool {
        self.size() <= usize::MAX
    }

    /// Where the entry of `pos` in `layer` starts.
    pub open spec fn start(&self, layer: int, pos: int) -> int {
        (layer * self.seq_len + pos) * self.kv_dim
    }

    /// The entry of `pos` in `layer` as it stands in `cache`.
    pub open spec fn entry<T>(&self, cache: Seq<T>, layer: int, pos: int) -> Seq<T> {
        cache.subrange(self.start(layer, pos), self.start(layer, pos) + self.kv_dim)
    }

    /// The entry of `(layer, pos)` lies inside the cache.
    pub proof fn lemma_entry_in_bounds(&self, layer: int, pos: int)
        requires
            0 <= layer < self.n_layers,
            0 <= pos < self.seq_len,
        ensures
            0 <= self.start(layer, pos),
            self.start(layer, pos) + self.kv_dim <= self.size(),
    {
        let row = layer * self.seq_len + pos;
        let rows = self.n_layers * self.seq_len;
        assert(0 <= layer * self.seq_len) by (nonlinear_arith)
            requires
                0 <= layer,
                0 <= self.seq_len,
        ;
        assert((layer + 1) * self.seq_len <= rows) by (nonlinear_arith)
            requires
                layer + 1 <= self.n_layers,
                0 <= self.seq_len,
                rows == self.n_layers * self.seq_len,
        ;
        assert((layer + 1) * self.seq_len == layer * self.seq_len + self.seq_len) by (
        nonlinear_arith);
        assert(0 <= row * self.kv_dim) by (nonlinear_arith)
            requires
                0 <= row,
                0 <= self.kv_dim,
        ;
        assert((row + 1) * self.kv_dim <= rows * self.kv_dim) by (nonlinear_arith)
            requires
                row + 1 <= rows,
                0 <= self.kv_dim,
        ;
        assert((row + 1) * self.kv_dim == row * self.kv_dim + self.kv_dim) by (nonlinear_arith);
        assert(rows * self.kv_dim == self.size()) by (nonlinear_arith)
            requires
                rows == self.n_layers * self.seq_len,
        ;
    }

    /// Entries of two different positions of a layer do not overlap.
    pub proof fn lemma_entries_apart(&self, layer: int, first: int, second: int)
        requires
            0 <= layer,
            0 <= first < second,
        ensures
            self.start(layer, first) + self.kv_dim <= self.start(layer, second),
    {
        let row1 = layer * self.seq_len + first;
        let row2 = layer * self.seq_len + second;
        assert((row1 + 1) * self.kv_dim <= row2 * self.kv_dim) by (nonlinear_arith)
            requires
                row1 + 1 <= row2,
                0 <= self.kv_dim,
        ;
        assert((row1 + 1) * self.kv_dim == row1 * self.kv_dim + self.kv_dim) by (nonlinear_arith);
    }

    /// Where the entry of `pos` in `layer` starts.
    pub fn offset(&self, layer: usize, pos: usize) -> (r: usize)
        requires
            self.wf(),
            layer < self.n_layers,
            pos < self.seq_len,
        ensures
            r == self.start(layer as int, pos as int),
            r + self.kv_dim <= self.size(),
    {
        proof {
            self.lemma_entry_in_bounds(layer as int, pos as int);
            assert(layer * self.seq_len + pos <= (layer * self.seq_len + pos) * self.kv_dim
                || self.kv_dim == 0) by (nonlinear_arith);
            assert(layer * self.seq_len <= self.n_layers * self.seq_len) by (nonlinear_arith)
                requires
                    layer < self.n_layers,
            ;
            assert(self.n_layers * self.seq_len <= self.size() || self.kv_dim == 0) by (
            nonlinear_arith);
        }
        if self.kv_dim == 0 {
            0
        } else {
            (layer * self.seq_len + pos) * self.kv_dim
        }
    }

    /// Writes `entry` as the entry of `pos` in `layer`, leaving every other
    /// element of `cache` as it was.
    pub fn write_entry<T: Copy>(&self, cache: &mut Vec<T>, layer: usize, pos: usize, entry: &[T])
        requires
            self.wf(),
            layer < self.n_layers,
            pos < self.seq_len,
            old(cache)@.len() == self.size(),
            entry@.len() == self.kv_dim,
        ensures
            final(cache)@ == written(old(cache)@, self.start(layer as int, pos as int), entry@),
    {
        let start = self.offset(layer, pos);
        let mut i: usize = 0;
        while i < self.kv_dim
            invariant
                self.wf(),
                start == self.start(layer as int, pos as int),
                start + self.kv_dim <= self.size(),
                entry@.len() == self.kv_dim,
                i <= self.kv_dim,
                cache@.len() == old(cache)@.len(),
                old(cache)@.len() == self.size(),
                forall|j: int|
                    0 <= j < cache@.len() ==> #[trigger] cache@[j] == if start <= j < start + i {
                        entry@[j - start]
                    } else {
                        old(cache)@[j]
                    },
            decreases self.kv_dim - i,
        {
            cache.set(start + i, entry[i]);
            i = i + 1;
        }
        assert(cache@ =~= written(old(cache)@, start as int, entry@));
    }

    /// A copy of the entry of `pos` in `layer`.
    pub fn read_entry<T: Copy>(&self, cache: &Vec<T>, layer: usize, pos: usize) -> (r: Vec<T>)
        requires
            self.wf(),
            layer < self.n_layers,
            pos < self.seq_len,
            cache@.len() == self.size(),
        ensures
            r@ == self.entry(cache@, layer as int, pos as int),
    {
        let start = self.offset(layer, pos);
        let mut r: Vec<T> = Vec::with_capacity(self.kv_dim);
        let mut i: usize = 0;
        while i < self.kv_dim
            invariant
                start == self.start(layer as int, pos as int),
                self.wf(),
                cache@.len() == self.size(),
                start + self.kv_dim <= self.size(),
                i <= self.kv_dim,
                r@ == cache@.subrange(start as int, start + i),
            decreases self.kv_dim - i,
        {
            r.push(cache[start + i]);
            i = i + 1;
        }
        r
    }
}

/// Writing the entry of a later position of a layer leaves the entry of an
/// earlier one as it was written: once position `t` holds `e`, writing position
/// `t + 1` keeps `e` there.
pub proof fn lemma_entry_kept_by_later_write<T>(
    layout: CacheLayout,
    cache: Seq<T>,
    layer: int,
    t: int,
    e: Seq<T>,
    later: Seq<T>,
)
    requires
        0 <= layer < layout.n_layers,
        0 <= t,
        t + 1 < layout.seq_len,
        cache.len() == layout.size(),
        e.len() == layout.kv_dim,
        later.len() == layout.kv_dim,
    ensures
        layout.entry(
            written(written(cache, layout.start(layer, t), e), layout.start(layer, t + 1), later),
            layer,
            t,
        ) == e,
{
    layout.lemma_entry_in_bounds(layer, t);
    layout.lemma_entries_apart(layer, t, t + 1);
    let once = written(cache, layout.start(layer, t), e);
    let twice = written(once, layout.start(layer, t + 1), later);
    assert(layout.entry(twice, layer, t) =~= e);
}

} // verus!
