//! The spatial hash index: particles are binned by the grid cell of their
//! position (cell width = smoothing radius), the bins are laid out sorted by
//! cell hash, and a per-hash offset table bounds each neighbour scan to the
//! nine cells around a query point.
//!
//! The index is proved exact: a query returns precisely the particles within
//! the smoothing radius, the same set a brute-force scan over all pairs
//! finds. Two different cells may share a hash; that only widens a scan,
//! never loses a neighbour.

use vstd::prelude::*;
use vstd::arithmetic::div_mod::lemma_mod_bound;
use vstd::seq_lib::lemma_seq_contains_after_push;
use crate::math::{
    IVec2, dist_sq, dist_sq_i128, div_floor_i64, lemma_cell_adjacent, RADIUS_LIMIT, N_LIMIT,
    PRED_LIMIT,
};

verus! {

/// Multiplier of the x cell coordinate in the cell hash.
pub const HASH_PRIME_X: u64 = 73856093;

/// Multiplier of the y cell coordinate in the cell hash.
pub const HASH_PRIME_Y: u64 = 19349663;

/// Shift that makes cell coordinates non-negative before hashing. (2^31)
pub const HASH_OFFSET: i64 = 2147483648;

/// Offset-table sentinel for a hash no particle maps to.
pub const NO_OFFSET: usize = usize::MAX;

/// Grid cell coordinate of a position along one axis: the position divided
/// by the cell width, rounded toward negative infinity.
pub open spec fn cell_coord(v: int, r: int) -> int {
    v / r
}

/// Hash of a grid cell, reduced modulo the table size.
pub open spec fn cell_hash(cx: int, cy: int, table: int) -> int {
    ((cx + HASH_OFFSET) * HASH_PRIME_X + (cy + HASH_OFFSET) * HASH_PRIME_Y) % table
}

/// Hash of the cell a position falls in.
pub open spec fn key_of(p: IVec2, r: int, table: int) -> int {
    cell_hash(cell_coord(p.x as int, r), cell_coord(p.y as int, r), table)
}

/// Table size used for `n` particles.
pub open spec fn table_size_spec(n: nat) -> int {
    if n == 0 {
        1
    } else {
        n as int
    }
}

/// Whether particle index `j` appears in the entry list.
pub open spec fn index_present(entries: Seq<(usize, usize)>, j: int) -> bool {
    exists|k: int| 0 <= k < entries.len() && (#[trigger] entries[k]).1 == j
}

/// Whether particles `i` and `j` are neighbours: their squared distance is
/// within the squared smoothing radius.
pub open spec fn in_radius(positions: Seq<IVec2>, i: int, j: int, r: int) -> bool {
    dist_sq(positions[i], positions[j]) <= r * r
}

/// Hash of the cell with coordinates `(ax, ay)`.
fn hash_cell(ax: i64, ay: i64, table: usize) -> (h: usize)
    requires
        0 < table,
        -2147483647 <= ax <= 2147483647,
        -2147483647 <= ay <= 2147483647,
    ensures
        h == cell_hash(ax as int, ay as int, table as int),
        h < table,
{
    let ux: u64 = (ax + HASH_OFFSET) as u64;
    let uy: u64 = (ay + HASH_OFFSET) as u64;
    let h: u64 = (ux * HASH_PRIME_X + uy * HASH_PRIME_Y) % (table as u64);
    proof {
        lemma_mod_bound(
            (ax + HASH_OFFSET) * HASH_PRIME_X + (ay + HASH_OFFSET) * HASH_PRIME_Y,
            table as int,
        );
    }
    h as usize
}

/// Hash of the cell a position falls in, for a cell width `r`.
fn hash_position(p: IVec2, r: i64, table: usize) -> (h: usize)
    requires
        0 < r,
        0 < table,
        -PRED_LIMIT <= p.x <= PRED_LIMIT,
        -PRED_LIMIT <= p.y <= PRED_LIMIT,
    ensures
        h == key_of(p, r as int, table as int),
        h < table,
{
    let cx: i64 = div_floor_i64(p.x, r);
    let cy: i64 = div_floor_i64(p.y, r);
    hash_cell(cx, cy, table)
}

/// The acceleration structure: particle indices laid out bin by bin in
/// increasing cell-hash order, with the first position of each hash's bin.
pub struct SpatialIndex {
    /// Cell width of the grid, the interaction cutoff.
    pub smoothing_radius: i64,
    /// Number of hash slots.
    pub table_size: usize,
    /// `(cell hash, particle index)` pairs, sorted by hash.
    pub entries: Vec<(usize, usize)>,
    /// For each hash, the first position in `entries` with that hash, or
    /// `NO_OFFSET` when no particle maps to it.
    pub cell_offsets: Vec<usize>,
}

impl SpatialIndex {
    /// The index faithfully describes `positions`: every entry records the
    /// cell hash of its particle, entries are sorted by hash, no particle
    /// appears twice, every particle appears, and the offset table points at
    /// the first entry of each occupied hash.
    pub open spec fn valid_for(&self, positions: Seq<IVec2>) -> bool {
        let n = positions.len() as int;
        let m = self.entries@.len() as int;
        let r = self.smoothing_radius as int;
        let t = self.table_size as int;
        &&& 0 < self.smoothing_radius <= RADIUS_LIMIT
        &&& n <= N_LIMIT
        &&& forall|j: int|
            0 <= j < n ==> -PRED_LIMIT <= #[trigger] positions[j].x <= PRED_LIMIT && -PRED_LIMIT
                <= positions[j].y <= PRED_LIMIT
        &&& t == table_size_spec(positions.len())
        &&& self.cell_offsets@.len() == t
        &&& forall|k: int|
            0 <= k < m ==> (#[trigger] self.entries@[k]).1 < n && self.entries@[k].0 == key_of(
                positions[self.entries@[k].1 as int],
                r,
                t,
            )
        &&& forall|k1: int, k2: int|
            #![trigger self.entries@[k1], self.entries@[k2]]
            0 <= k1 < k2 < m ==> self.entries@[k1].0 <= self.entries@[k2].0
        &&& forall|k1: int, k2: int|
            #![trigger self.entries@[k1], self.entries@[k2]]
            0 <= k1 < k2 < m ==> self.entries@[k1].1 != self.entries@[k2].1
        &&& forall|j: int| 0 <= j < n ==> #[trigger] index_present(self.entries@, j)
        &&& forall|h: int|
            0 <= h < t ==> #[trigger] self.cell_offsets@[h] == NO_OFFSET || (self.cell_offsets@[h]
                < m && self.entries@[self.cell_offsets@[h] as int].0 == h)
        &&& forall|h: int, k: int|
            #![trigger self.cell_offsets@[h], self.entries@[k]]
            0 <= h < t && 0 <= k < m && self.entries@[k].0 == h ==> self.cell_offsets@[h]
                != NO_OFFSET && self.cell_offsets@[h] <= k
    }

    /// Build the index for a set of positions: hash every position, lay the
    /// particle indices out bin by bin in increasing hash order, and record
    /// each occupied hash's first position.
    pub fn build(positions: &Vec<IVec2>, smoothing_radius: i64) -> (index: SpatialIndex)
        requires
            0 < smoothing_radius <= RADIUS_LIMIT,
            positions@.len() <= N_LIMIT,
            forall|j: int|
                0 <= j < positions@.len() ==> -PRED_LIMIT <= #[trigger] positions@[j].x
                    <= PRED_LIMIT && -PRED_LIMIT <= positions@[j].y <= PRED_LIMIT,
        ensures
            index.valid_for(positions@),
            index.smoothing_radius == smoothing_radius,
    {
        let ghost pos: Seq<IVec2> = positions@;
        let n: usize = positions.len();
        let table: usize = if n == 0 {
            1
        } else {
            n
        };
        let mut keys: Vec<usize> = Vec::new();
        let mut j0: usize = 0;
        while j0 < n
            invariant
                j0 <= n,
                n == pos.len(),
                pos == positions@,
                0 < smoothing_radius <= RADIUS_LIMIT,
                0 < table,
                table == table_size_spec(pos.len()),
                forall|j: int|
                    0 <= j < n ==> -PRED_LIMIT <= #[trigger] pos[j].x <= PRED_LIMIT && -PRED_LIMIT
                        <= pos[j].y <= PRED_LIMIT,
                keys@.len() == j0,
                forall|j: int|
                    0 <= j < j0 ==> #[trigger] keys@[j] == key_of(
                        pos[j],
                        smoothing_radius as int,
                        table as int,
                    ) && keys@[j] < table,
            decreases n - j0,
        {
            keys.push(hash_position(positions[j0], smoothing_radius, table));
            j0 = j0 + 1;
        }
        let mut entries: Vec<(usize, usize)> = Vec::new();
        let mut offsets: Vec<usize> = Vec::new();
        let mut h: usize = 0;
        while h < table
            invariant
                h <= table,
                n == pos.len(),
                pos == positions@,
                0 < smoothing_radius <= RADIUS_LIMIT,
                0 < table,
                table == table_size_spec(pos.len()),
                n <= N_LIMIT,
                table <= 4096,
                keys@.len() == n,
                forall|j: int|
                    0 <= j < n ==> #[trigger] keys@[j] == key_of(
                        pos[j],
                        smoothing_radius as int,
                        table as int,
                    ) && keys@[j] < table,
                offsets@.len() == h,
                entries@.len() <= h * 4096,
                forall|k: int|
                    0 <= k < entries@.len() ==> (#[trigger] entries@[k]).1 < n && entries@[k].0
                        < h && entries@[k].0 == keys@[entries@[k].1 as int],
                forall|k1: int, k2: int|
                    #![trigger entries@[k1], entries@[k2]]
                    0 <= k1 < k2 < entries@.len() ==> entries@[k1].0 <= entries@[k2].0,
                forall|k1: int, k2: int|
                    #![trigger entries@[k1], entries@[k2]]
                    0 <= k1 < k2 < entries@.len() ==> entries@[k1].1 != entries@[k2].1,
                forall|j: int|
                    0 <= j < n && keys@[j] < h ==> #[trigger] index_present(entries@, j),
                forall|hh: int|
                    0 <= hh < h ==> #[trigger] offsets@[hh] == NO_OFFSET || (offsets@[hh]
                        < entries@.len() && entries@[offsets@[hh] as int].0 == hh),
                forall|hh: int, k: int|
                    #![trigger offsets@[hh], entries@[k]]
                    0 <= hh < h && 0 <= k < entries@.len() && entries@[k].0 == hh ==> offsets@[hh]
                        != NO_OFFSET && offsets@[hh] <= k,
            decreases table - h,
        {
            let start: usize = entries.len();
            let mut j: usize = 0;
            while j < n
                invariant
                    j <= n,
                    h < table,
                    n == pos.len(),
                    n <= N_LIMIT,
                    keys@.len() == n,
                    forall|jj: int|
                        0 <= jj < n ==> #[trigger] keys@[jj] == key_of(
                            pos[jj],
                            smoothing_radius as int,
                            table as int,
                        ) && keys@[jj] < table,
                    start <= entries@.len(),
                    start <= 16777216,
                    entries@.len() - start <= j,
                    offsets@.len() == h,
                    forall|k: int|
                        0 <= k < start ==> (#[trigger] entries@[k]).0 < h,
                    forall|hh: int|
                        0 <= hh < h ==> #[trigger] offsets@[hh] == NO_OFFSET || (offsets@[hh]
                            < entries@.len() && entries@[offsets@[hh] as int].0 == hh),
                    forall|hh: int, k: int|
                        #![trigger offsets@[hh], entries@[k]]
                        0 <= hh < h && 0 <= k < entries@.len() && entries@[k].0 == hh ==> offsets@[hh]
                            != NO_OFFSET && offsets@[hh] <= k,
                    forall|k: int|
                        start <= k < entries@.len() ==> (#[trigger] entries@[k]).0 == h
                            && entries@[k].1 < j,
                    forall|k: int|
                        0 <= k < entries@.len() ==> (#[trigger] entries@[k]).1 < n && entries@[k].0
                            == keys@[entries@[k].1 as int],
                    forall|k1: int, k2: int|
                        #![trigger entries@[k1], entries@[k2]]
                        0 <= k1 < k2 < entries@.len() ==> entries@[k1].0 <= entries@[k2].0,
                    forall|k1: int, k2: int|
                        #![trigger entries@[k1], entries@[k2]]
                        0 <= k1 < k2 < entries@.len() ==> entries@[k1].1 != entries@[k2].1,
                    forall|jj: int|
                        0 <= jj < n && keys@[jj] < h ==> #[trigger] index_present(entries@, jj),
                    forall|jj: int|
                        0 <= jj < j && keys@[jj] == h ==> #[trigger] index_present(entries@, jj),
                decreases n - j,
            {
                if keys[j] == h {
                    let ghost before: Seq<(usize, usize)> = entries@;
                    entries.push((h, j));
                    proof {
                        assert(entries@[before.len() as int] == (h, j));
                        assert forall|jj: int|
                            0 <= jj < n && keys@[jj] < h implies #[trigger] index_present(
                            entries@,
                            jj,
                        ) by {
                            assert(index_present(before, jj));
                            let k: int = choose|k: int|
                                0 <= k < before.len() && (#[trigger] before[k]).1 == jj;
                            assert(entries@[k].1 == jj);
                        }
                        assert forall|jj: int|
                            0 <= jj < j + 1 && keys@[jj] == h implies #[trigger] index_present(
                            entries@,
                            jj,
                        ) by {
                            if jj < j {
                                assert(index_present(before, jj));
                                let k: int = choose|k: int|
                                    0 <= k < before.len() && (#[trigger] before[k]).1 == jj;
                                assert(entries@[k].1 == jj);
                            } else {
                                assert(entries@[before.len() as int].1 == jj);
                            }
                        }
                    }
                } else {
                    proof {
                        assert forall|jj: int|
                            0 <= jj < j + 1 && keys@[jj] == h implies #[trigger] index_present(
                            entries@,
                            jj,
                        ) by {
                        }
                    }
                }
                j = j + 1;
            }
            proof {
                assert((h + 1) * 4096 == h * 4096 + 4096) by (nonlinear_arith);
            }
            if entries.len() > start {
                offsets.push(start);
            } else {
                offsets.push(NO_OFFSET);
            }
            h = h + 1;
        }
        proof {
            assert forall|j: int| 0 <= j < n implies #[trigger] index_present(entries@, j) by {
                assert(keys@[j] < table);
            }
        }
        SpatialIndex { smoothing_radius, table_size: table, entries, cell_offsets: offsets }
    }

    /// All particles within the smoothing radius of particle `i`, found by
    /// scanning the nine grid cells around `i`'s cell, each scanned hash
    /// once. Exact, with no duplicates: hash collisions only add distance
    /// checks, never neighbours. The particle itself is included, at
    /// distance zero.
    pub fn query(&self, positions: &Vec<IVec2>, i: usize) -> (neighbors: Vec<usize>)
        requires
            self.valid_for(positions@),
            i < positions@.len(),
        ensures
            forall|j: usize|
                #[trigger] neighbors@.contains(j) <==> j < positions@.len() && in_radius(
                    positions@,
                    i as int,
                    j as int,
                    self.smoothing_radius as int,
                ),
            forall|t1: int, t2: int|
                0 <= t1 < t2 < neighbors@.len() ==> neighbors@[t1] != neighbors@[t2],
    {
        let ghost pos: Seq<IVec2> = positions@;
        let ghost n: int = pos.len() as int;
        let r: i64 = self.smoothing_radius;
        proof {
            assert(0 < r * r <= 1048576) by (nonlinear_arith)
                requires
                    0 < r <= 1024,
            ;
        }
        let rsq: i64 = r * r;
        let pq: IVec2 = positions[i];
        let cx: i64 = div_floor_i64(pq.x, r);
        let cy: i64 = div_floor_i64(pq.y, r);
        let mut cells: Vec<(i64, i64)> = Vec::new();
        cells.push((cx - 1, cy - 1));
        cells.push((cx - 1, cy));
        cells.push((cx - 1, cy + 1));
        cells.push((cx, cy - 1));
        cells.push((cx, cy));
        cells.push((cx, cy + 1));
        cells.push((cx + 1, cy - 1));
        cells.push((cx + 1, cy));
        cells.push((cx + 1, cy + 1));
        let mut scanned: Vec<usize> = Vec::new();
        let mut neighbors: Vec<usize> = Vec::new();
        let mut c: usize = 0;
        while c < 9
            invariant
                c <= 9,
                self.valid_for(pos),
                pos == positions@,
                n == pos.len(),
                i < n,
                pq == pos[i as int],
                r == self.smoothing_radius,
                rsq == r * r,
                cx == (pq.x as int) / (r as int),
                cy == (pq.y as int) / (r as int),
                -PRED_LIMIT <= cx <= PRED_LIMIT,
                -PRED_LIMIT <= cy <= PRED_LIMIT,
                cells@.len() == 9,
                cells@[0].0 == cx - 1 && cells@[0].1 == cy - 1,
                cells@[1].0 == cx - 1 && cells@[1].1 == cy,
                cells@[2].0 == cx - 1 && cells@[2].1 == cy + 1,
                cells@[3].0 == cx && cells@[3].1 == cy - 1,
                cells@[4].0 == cx && cells@[4].1 == cy,
                cells@[5].0 == cx && cells@[5].1 == cy + 1,
                cells@[6].0 == cx + 1 && cells@[6].1 == cy - 1,
                cells@[7].0 == cx + 1 && cells@[7].1 == cy,
                cells@[8].0 == cx + 1 && cells@[8].1 == cy + 1,
                forall|t: int|
                    0 <= t < neighbors@.len() ==> (#[trigger] neighbors@[t]) < n && in_radius(
                        pos,
                        i as int,
                        neighbors@[t] as int,
                        r as int,
                    ),
                forall|t1: int, t2: int|
                    0 <= t1 < t2 < neighbors@.len() ==> neighbors@[t1] != neighbors@[t2],
                forall|t: int|
                    0 <= t < neighbors@.len() ==> scanned@.contains(
                        key_of(
                            pos[(#[trigger] neighbors@[t]) as int],
                            r as int,
                            self.table_size as int,
                        ) as usize,
                    ),
                forall|idx: int|
                    0 <= idx < c ==> scanned@.contains(
                        cell_hash(
                            (#[trigger] cells@[idx]).0 as int,
                            cells@[idx].1 as int,
                            self.table_size as int,
                        ) as usize,
                    ),
                forall|j: int|
                    0 <= j < n && scanned@.contains(
                        #[trigger] key_of(pos[j], r as int, self.table_size as int) as usize,
                    ) && in_radius(pos, i as int, j, r as int) ==> neighbors@.contains(j as usize),
            decreases 9 - c,
        {
            let cell: (i64, i64) = cells[c];
            proof {
                assert(-PRED_LIMIT <= pq.x <= PRED_LIMIT && -PRED_LIMIT <= pq.y <= PRED_LIMIT);
            }
            let h: usize = hash_cell(cell.0, cell.1, self.table_size);
            if !contains_usize(&scanned, h) {
                let ghost scanned0: Seq<usize> = scanned@;
                let ghost nbrs0: Seq<usize> = neighbors@;
                scanned.push(h);
                proof {
                    broadcast use lemma_seq_contains_after_push;

                }
                let off: usize = self.cell_offsets[h];
                if off != NO_OFFSET {
                    let m: usize = self.entries.len();
                    let mut k: usize = off;
                    proof {
                        assert(self.cell_offsets@[h as int] == off);
                        assert(off < m && self.entries@[off as int].0 == h);
                    }
                    while k < m && self.entries[k].0 == h
                        invariant
                            self.valid_for(pos),
                            pos == positions@,
                            n == pos.len(),
                            i < n,
                            pq == pos[i as int],
                            r == self.smoothing_radius,
                            rsq == r * r,
                            m == self.entries@.len(),
                            h < self.table_size,
                            off <= k <= m,
                            off < m,
                            self.entries@[off as int].0 == h,
                            self.cell_offsets@[h as int] == off,
                            scanned@ == scanned0.push(h),
                            !scanned0.contains(h),
                            forall|kk: int|
                                off <= kk < k ==> (#[trigger] self.entries@[kk]).0 == h,
                            nbrs0.len() <= neighbors@.len(),
                            forall|t: int|
                                0 <= t < nbrs0.len() ==> #[trigger] neighbors@[t] == nbrs0[t],
                            forall|t: int|
                                0 <= t < nbrs0.len() ==> scanned0.contains(
                                    key_of(
                                        pos[(#[trigger] nbrs0[t]) as int],
                                        r as int,
                                        self.table_size as int,
                                    ) as usize,
                                ),
                            forall|t: int|
                                nbrs0.len() <= t < neighbors@.len() ==> exists|kk: int|
                                    off <= kk < k && (#[trigger] self.entries@[kk]).1 == (
                                    #[trigger] neighbors@[t]),
                            forall|t: int|
                                0 <= t < neighbors@.len() ==> (#[trigger] neighbors@[t]) < n
                                    && in_radius(pos, i as int, neighbors@[t] as int, r as int),
                            forall|t1: int, t2: int|
                                0 <= t1 < t2 < neighbors@.len() ==> neighbors@[t1]
                                    != neighbors@[t2],
                            forall|t: int|
                                0 <= t < neighbors@.len() ==> scanned@.contains(
                                    key_of(
                                        pos[(#[trigger] neighbors@[t]) as int],
                                        r as int,
                                        self.table_size as int,
                                    ) as usize,
                                ),
                            forall|kk: int|
                                off <= kk < k && in_radius(
                                    pos,
                                    i as int,
                                    (#[trigger] self.entries@[kk]).1 as int,
                                    r as int,
                                ) ==> neighbors@.contains(self.entries@[kk].1),
                            forall|j: int|
                                0 <= j < n && scanned0.contains(
                                    #[trigger] key_of(
                                        pos[j],
                                        r as int,
                                        self.table_size as int,
                                    ) as usize,
                                ) && in_radius(pos, i as int, j, r as int)
                                    ==> neighbors@.contains(j as usize),
                        decreases m - k,
                    {
                        let j: usize = self.entries[k].1;
                        proof {
                            broadcast use lemma_seq_contains_after_push;

                            assert(self.entries@[k as int].1 < n);
                        }
                        let s: i128 = dist_sq_i128(pq, positions[j]);
                        if s <= rsq as i128 {
                            proof {
                                broadcast use lemma_seq_contains_after_push;

                                assert(self.entries@[k as int].0 == key_of(
                                    pos[j as int],
                                    r as int,
                                    self.table_size as int,
                                ));
                                assert forall|t: int|
                                    0 <= t < neighbors@.len() implies neighbors@[t] != j by {
                                    if t < nbrs0.len() {
                                        assert(scanned0.contains(
                                            key_of(
                                                pos[nbrs0[t] as int],
                                                r as int,
                                                self.table_size as int,
                                            ) as usize,
                                        ));
                                    } else {
                                        let kk: int = choose|kk: int|
                                            off <= kk < k && (#[trigger] self.entries@[kk]).1 == (
                                            neighbors@[t]);
                                        assert(self.entries@[kk].1 != self.entries@[k as int].1);
                                    }
                                }
                            }
                            let ghost nbefore: Seq<usize> = neighbors@;
                            neighbors.push(j);
                            proof {
                                broadcast use lemma_seq_contains_after_push;

                                assert(neighbors@[nbefore.len() as int] == j);
                                assert forall|t: int|
                                    nbrs0.len() <= t < neighbors@.len() implies exists|kk: int|
                                        off <= kk < k + 1 && (#[trigger] self.entries@[kk]).1 == (
                                        #[trigger] neighbors@[t]) by {
                                    if t < nbefore.len() {
                                        let kk: int = choose|kk: int|
                                            off <= kk < k && (#[trigger] self.entries@[kk]).1
                                                == nbefore[t];
                                        assert(off <= kk < k + 1 && self.entries@[kk].1
                                            == neighbors@[t]);
                                    } else {
                                        assert(off <= k < k + 1 && self.entries@[k as int].1
                                            == neighbors@[t]);
                                    }
                                }
                            }
                        } else {
                            proof {
                                assert(!in_radius(
                                    pos,
                                    i as int,
                                    self.entries@[k as int].1 as int,
                                    r as int,
                                ));
                            }
                        }
                        k = k + 1;
                    }
                    proof {
                        broadcast use lemma_seq_contains_after_push;

                        assert forall|j: int|
                            0 <= j < n && scanned@.contains(
                                #[trigger] key_of(pos[j], r as int, self.table_size as int) as usize,
                            ) && in_radius(pos, i as int, j, r as int) implies neighbors@.contains(
                            j as usize,
                        ) by {
                            let keyj: int = key_of(pos[j], r as int, self.table_size as int);
                            if scanned0.contains(keyj as usize) {
                            } else {
                                assert(keyj as usize == h);
                                assert(index_present(self.entries@, j));
                                let kk: int = choose|kk: int|
                                    0 <= kk < self.entries@.len() && (#[trigger] self.entries@[kk]).1
                                        == j;
                                assert(self.entries@[kk].0 == keyj);
                                assert(0 <= keyj < self.table_size);
                                assert(self.cell_offsets@[keyj] <= kk);
                                if kk >= k {
                                    if k < m {
                                        assert(self.entries@[off as int].0 <= self.entries@[k as int].0);
                                        assert(self.entries@[k as int].0 <= self.entries@[kk].0);
                                        assert(false);
                                    }
                                }
                                assert(neighbors@.contains(self.entries@[kk].1));
                            }
                        }
                    }
                } else {
                    proof {
                        broadcast use lemma_seq_contains_after_push;

                        assert forall|j: int|
                            0 <= j < n && scanned@.contains(
                                #[trigger] key_of(pos[j], r as int, self.table_size as int) as usize,
                            ) && in_radius(pos, i as int, j, r as int) implies neighbors@.contains(
                            j as usize,
                        ) by {
                            let keyj: int = key_of(pos[j], r as int, self.table_size as int);
                            if scanned0.contains(keyj as usize) {
                            } else {
                                assert(keyj as usize == h);
                                assert(index_present(self.entries@, j));
                                let kk: int = choose|kk: int|
                                    0 <= kk < self.entries@.len() && (#[trigger] self.entries@[kk]).1
                                        == j;
                                assert(self.entries@[kk].0 == keyj);
                                assert(0 <= keyj < self.table_size);
                                assert(self.cell_offsets@[keyj] != NO_OFFSET);
                                assert(false);
                            }
                        }
                    }
                }
                proof {
                    broadcast use lemma_seq_contains_after_push;

                }
            }
            c = c + 1;
        }
        proof {
            assert forall|j: usize|
                #[trigger] neighbors@.contains(j) <==> j < pos.len() && in_radius(
                    pos,
                    i as int,
                    j as int,
                    r as int,
                ) by {
                if neighbors@.contains(j) {
                    let t: int = choose|t: int|
                        0 <= t < neighbors@.len() && neighbors@[t] == j;
                    assert(neighbors@[t] < n && in_radius(pos, i as int, neighbors@[t] as int, r as int));
                }
                if j < pos.len() && in_radius(pos, i as int, j as int, r as int) {
                    assert(dist_sq(pos[i as int], pos[j as int]) <= (r as int) * (r as int));
                    assert(-(r as int) <= pos[j as int].x - pq.x <= r && -(r as int) <= pos[j as int].y
                        - pq.y <= r) by (nonlinear_arith)
                        requires
                            (pq.x - pos[j as int].x) * (pq.x - pos[j as int].x) + (pq.y - pos[j as int].y)
                                * (pq.y - pos[j as int].y) <= (r as int) * (r as int),
                            0 < r,
                    ;
                    lemma_cell_adjacent(pq.x as int, pos[j as int].x as int, r as int);
                    lemma_cell_adjacent(pq.y as int, pos[j as int].y as int, r as int);
                    let a: int = (pos[j as int].x as int) / (r as int);
                    let b: int = (pos[j as int].y as int) / (r as int);
                    let ghost idx: int = if a == cx - 1 {
                        if b == cy - 1 {
                            0int
                        } else if b == cy {
                            1int
                        } else {
                            2int
                        }
                    } else if a == cx {
                        if b == cy - 1 {
                            3int
                        } else if b == cy {
                            4int
                        } else {
                            5int
                        }
                    } else {
                        if b == cy - 1 {
                            6int
                        } else if b == cy {
                            7int
                        } else {
                            8int
                        }
                    };
                    assert(cells@[idx].0 == a && cells@[idx].1 == b);
                    assert(scanned@.contains(
                        cell_hash(cells@[idx].0 as int, cells@[idx].1 as int, self.table_size as int) as usize,
                    ));
                    assert(key_of(pos[j as int], r as int, self.table_size as int) == cell_hash(
                        a,
                        b,
                        self.table_size as int,
                    ));
                    assert(neighbors@.contains(j));
                }
            }
        }
        neighbors
    }
}

/// Whether `x` occurs in `v`.
fn contains_usize(v: &Vec<usize>, x: usize) -> (b: bool)
    ensures
        b == v@.contains(x),
{
    let mut idx: usize = 0;
    while idx < v.len()
        invariant
            idx <= v@.len(),
            forall|t: int| 0 <= t < idx ==> v@[t] != x,
        decreases v@.len() - idx,
    {
        if v[idx] == x {
            return true;
        }
        idx = idx + 1;
    }
    false
}

/// All particles within the smoothing radius of particle `i`, by checking
/// every pair — the reference the spatial index is measured against.
pub fn neighbors_brute_force(positions: &Vec<IVec2>, i: usize, smoothing_radius: i64) -> (neighbors: Vec<usize>)
    requires
        i < positions@.len(),
        0 < smoothing_radius <= RADIUS_LIMIT,
        forall|j: int|
            0 <= j < positions@.len() ==> -PRED_LIMIT <= #[trigger] positions@[j].x <= PRED_LIMIT
                && -PRED_LIMIT <= positions@[j].y <= PRED_LIMIT,
    ensures
        forall|j: usize|
            #[trigger] neighbors@.contains(j) <==> j < positions@.len() && in_radius(
                positions@,
                i as int,
                j as int,
                smoothing_radius as int,
            ),
        forall|t1: int, t2: int|
            0 <= t1 < t2 < neighbors@.len() ==> neighbors@[t1] != neighbors@[t2],
{
    let ghost pos: Seq<IVec2> = positions@;
    let n: usize = positions.len();
    proof {
        assert(0 < smoothing_radius * smoothing_radius <= 1048576) by (nonlinear_arith)
            requires
                0 < smoothing_radius <= 1024,
        ;
    }
    let rsq: i64 = smoothing_radius * smoothing_radius;
    let pq: IVec2 = positions[i];
    let mut neighbors: Vec<usize> = Vec::new();
    let mut j: usize = 0;
    while j < n
        invariant
            j <= n,
            n == pos.len(),
            pos == positions@,
            i < n,
            pq == pos[i as int],
            rsq == smoothing_radius * smoothing_radius,
            forall|jj: int|
                0 <= jj < n ==> -PRED_LIMIT <= #[trigger] pos[jj].x <= PRED_LIMIT && -PRED_LIMIT
                    <= pos[jj].y <= PRED_LIMIT,
            forall|t: int| 0 <= t < neighbors@.len() ==> (#[trigger] neighbors@[t]) < j,
            forall|t1: int, t2: int|
                0 <= t1 < t2 < neighbors@.len() ==> neighbors@[t1] != neighbors@[t2],
            forall|jj: usize|
                #[trigger] neighbors@.contains(jj) <==> jj < j && in_radius(
                    pos,
                    i as int,
                    jj as int,
                    smoothing_radius as int,
                ),
        decreases n - j,
    {
        proof {
            broadcast use lemma_seq_contains_after_push;

        }
        let s: i128 = dist_sq_i128(pq, positions[j]);
        if s <= rsq as i128 {
            neighbors.push(j);
        } else {
            proof {
                assert(!in_radius(pos, i as int, j as int, smoothing_radius as int));
            }
        }
        j = j + 1;
    }
    neighbors
}

/// The spatial index agrees with the brute-force scan: whatever one returns
/// for a particle, the other returns too — the same neighbour set.
pub proof fn lemma_spatial_index_matches_brute_force(
    positions: Seq<IVec2>,
    r: int,
    i: int,
    from_index: Seq<usize>,
    from_brute: Seq<usize>,
)
    requires
        forall|j: usize|
            #[trigger] from_index.contains(j) <==> j < positions.len() && in_radius(
                positions,
                i,
                j as int,
                r,
            ),
        forall|j: usize|
            #[trigger] from_brute.contains(j) <==> j < positions.len() && in_radius(
                positions,
                i,
                j as int,
                r,
            ),
    ensures
        forall|j: usize| from_index.contains(j) <==> from_brute.contains(j),
{
}

} // verus!
