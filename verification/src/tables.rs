//! The precomputed move and pruning tables. A move table maps each value
//! of one coordinate and each of the eighteen moves to the successor
//! value; a pruning table holds, for a pair of coordinates, a lower bound
//! on the phase moves still needed to zero both.

use vstd::prelude::*;
use crate::cubie::CubieCube;
use crate::cubie::CubieSpec;
use crate::cubie::apply_move;
use crate::cubie::twist_of;
use crate::cubie::flip_of;
use crate::cubie::udslice_of;
use crate::cubie::edge4_of;
use crate::cubie::edge8_of;
use crate::cubie::corner_of;
use crate::cubie::twist_digits;
use crate::cubie::flip_digits;
use crate::cubie::ud_slot;
use crate::cubie::decode_entry;
use crate::defs::move_from_index;
use crate::defs::move_index;

verus! {

/// A table entry marking a transition the search never takes: a phase-1
/// move applied to a coordinate that only phase 2 reads.
pub open spec fn sentinel() -> int {
    0xFFFF
}

/// Entry (c, m) of a move table.
pub open spec fn tbl(t: Seq<Vec<u16>>, c: int, m: int) -> int {
    t[c]@[m] as int
}

/// A move table has one row per coordinate value and one column per move.
pub open spec fn move_table_wf(t: Seq<Vec<u16>>, size: int) -> bool {
    &&& t.len() == size
    &&& forall|c: int| 0 <= c < size ==> (#[trigger] t[c])@.len() == 18
}

/// Every entry is a coordinate value below the target size.
pub open spec fn full_entries(t: Seq<Vec<u16>>, size: int, target: int) -> bool {
    forall|c: int, m: int| 0 <= c < size && 0 <= m < 18 ==> #[trigger] tbl(t, c, m) < target
}

/// The ten moves that phase 2 may use: any turn of U or D, and half
/// turns of the other four faces.
pub open spec fn is_phase2_move(m: int) -> bool {
    m / 3 == 0 || m / 3 == 3 || m % 3 == 1
}

/// Phase-2 entries are coordinate values below the target size; the
/// remaining columns hold the sentinel.
pub open spec fn phase2_entries(t: Seq<Vec<u16>>, size: int, target: int) -> bool {
    forall|c: int, m: int|
        0 <= c < size && 0 <= m < 18 ==> if is_phase2_move(m) {
            #[trigger] tbl(t, c, m) < target
        } else {
            tbl(t, c, m) == sentinel()
        }
}

/// The canonical cubie state with twist c and everything else solved.
pub open spec fn twist_state(c: int) -> CubieSpec {
    CubieSpec {
        cp: CubieSpec::solved().cp,
        co: twist_digits(c),
        ep: CubieSpec::solved().ep,
        eo: CubieSpec::solved().eo,
    }
}

/// The canonical cubie state with flip f and everything else solved.
pub open spec fn flip_state(f: int) -> CubieSpec {
    CubieSpec {
        cp: CubieSpec::solved().cp,
        co: CubieSpec::solved().co,
        ep: CubieSpec::solved().ep,
        eo: flip_digits(f),
    }
}

/// The canonical cubie state with UD-slice rank u and everything else
/// solved.
pub open spec fn udslice_state(u: int) -> CubieSpec {
    CubieSpec {
        cp: CubieSpec::solved().cp,
        co: CubieSpec::solved().co,
        ep: Seq::new(12, |j: int| ud_slot(u, j)),
        eo: CubieSpec::solved().eo,
    }
}

/// The canonical cubie state with corner rank c and everything else
/// solved.
pub open spec fn corner_state(c: int) -> CubieSpec {
    CubieSpec {
        cp: Seq::new(8, |j: int| decode_entry(c, 8, j)),
        co: CubieSpec::solved().co,
        ep: CubieSpec::solved().ep,
        eo: CubieSpec::solved().eo,
    }
}

/// The canonical cubie state with edge-8 rank e and everything else
/// solved.
pub open spec fn edge8_state(e: int) -> CubieSpec {
    CubieSpec {
        cp: CubieSpec::solved().cp,
        co: CubieSpec::solved().co,
        ep: Seq::new(
            12,
            |j: int|
                if j < 8 {
                    decode_entry(e, 8, j)
                } else {
                    j
                },
        ),
        eo: CubieSpec::solved().eo,
    }
}

/// The canonical cubie state with slice-order rank e and everything else
/// solved.
pub open spec fn edge4_state(e: int) -> CubieSpec {
    CubieSpec {
        cp: CubieSpec::solved().cp,
        co: CubieSpec::solved().co,
        ep: Seq::new(
            12,
            |j: int|
                if j < 8 {
                    j
                } else {
                    8 + decode_entry(e, 4, j - 8)
                },
        ),
        eo: CubieSpec::solved().eo,
    }
}

/// A packed two-coordinate table of distance lower bounds.
#[derive(Clone, Debug)]
pub struct PruningTable {
    pub table: Vec<u8>,
    pub stride: usize,
}

impl PruningTable {
    /// The bound stored for the coordinate pair (x, y).
    pub fn get(&self, x: usize, y: usize) -> (r: u8)
        requires
            y < self.stride,
            x * self.stride + y < self.table@.len(),
        ensures
            r == self.table@[x * self.stride + y],
    {
        let n = self.table.len();
        self.table[x * self.stride + y]
    }
}

/// The full set of move and pruning tables that one solve needs; built
/// once and shared read-only.
#[derive(Clone, Debug)]
pub struct Tables {
    pub twist_move: Vec<Vec<u16>>,
    pub flip_move: Vec<Vec<u16>>,
    pub udslice_move: Vec<Vec<u16>>,
    pub edge4_move: Vec<Vec<u16>>,
    pub edge8_move: Vec<Vec<u16>>,
    pub corner_move: Vec<Vec<u16>>,
    pub udslice_twist_prune: PruningTable,
    pub udslice_flip_prune: PruningTable,
    pub edge4_edge8_prune: PruningTable,
    pub edge4_corner_prune: PruningTable,
}

impl Tables {
    /// Shapes and entry ranges of all ten tables.
    pub open spec fn wf(self) -> bool {
        &&& move_table_wf(self.twist_move@, 2187)
        &&& full_entries(self.twist_move@, 2187, 2187)
        &&& move_table_wf(self.flip_move@, 2048)
        &&& full_entries(self.flip_move@, 2048, 2048)
        &&& move_table_wf(self.udslice_move@, 495)
        &&& full_entries(self.udslice_move@, 495, 495)
        &&& move_table_wf(self.corner_move@, 40320)
        &&& full_entries(self.corner_move@, 40320, 40320)
        &&& move_table_wf(self.edge4_move@, 24)
        &&& phase2_entries(self.edge4_move@, 24, 24)
        &&& move_table_wf(self.edge8_move@, 40320)
        &&& phase2_entries(self.edge8_move@, 40320, 40320)
        &&& self.udslice_twist_prune.stride == 2187
        &&& self.udslice_twist_prune.table@.len() == 495 * 2187
        &&& self.udslice_flip_prune.stride == 2048
        &&& self.udslice_flip_prune.table@.len() == 495 * 2048
        &&& self.edge4_edge8_prune.stride == 40320
        &&& self.edge4_edge8_prune.table@.len() == 24 * 40320
        &&& self.edge4_corner_prune.stride == 40320
        &&& self.edge4_corner_prune.table@.len() == 24 * 40320
    }

    /// What the move tables mean: entry (c, m) is the coordinate of the
    /// canonical state with coordinate c after move m.
    pub open spec fn semantics(self) -> bool {
        &&& forall|c: int, m: int|
            0 <= c < 2187 && 0 <= m < 18 ==> #[trigger] tbl(self.twist_move@, c, m) == twist_of(
                apply_move(twist_state(c), m),
            )
        &&& forall|c: int, m: int|
            0 <= c < 2048 && 0 <= m < 18 ==> #[trigger] tbl(self.flip_move@, c, m) == flip_of(
                apply_move(flip_state(c), m),
            )
        &&& forall|c: int, m: int|
            0 <= c < 495 && 0 <= m < 18 ==> #[trigger] tbl(self.udslice_move@, c, m)
                == udslice_of(apply_move(udslice_state(c), m))
        &&& forall|c: int, m: int|
            0 <= c < 40320 && 0 <= m < 18 ==> #[trigger] tbl(self.corner_move@, c, m)
                == corner_of(apply_move(corner_state(c), m))
        &&& forall|c: int, m: int|
            0 <= c < 24 && 0 <= m < 18 && is_phase2_move(m) ==> #[trigger] tbl(
                self.edge4_move@,
                c,
                m,
            ) == edge4_of(apply_move(edge4_state(c), m))
        &&& forall|c: int, m: int|
            0 <= c < 40320 && 0 <= m < 18 && is_phase2_move(m) ==> #[trigger] tbl(
                self.edge8_move@,
                c,
                m,
            ) == edge8_of(apply_move(edge8_state(c), m))
    }

    /// Builds the twist move table: row c holds, for each move, the twist
    /// of the canonical twist-c state after that move.
    pub fn make_twist_table() -> (t: Vec<Vec<u16>>)
        ensures
            move_table_wf(t@, 2187),
            full_entries(t@, 2187, 2187),
            forall|c: int, m: int|
                0 <= c < 2187 && 0 <= m < 18 ==> #[trigger] tbl(t@, c, m) == twist_of(
                    apply_move(twist_state(c), m),
                ),
    {
        let mut t: Vec<Vec<u16>> = Vec::new();
        let mut c: usize = 0;
        while c < 2187
            invariant
                c <= 2187,
                t@.len() == c,
                forall|i: int| 0 <= i < c ==> (#[trigger] t@[i])@.len() == 18,
                forall|i: int, m: int|
                    0 <= i < c && 0 <= m < 18 ==> #[trigger] tbl(t@, i, m) == twist_of(
                        apply_move(twist_state(i), m),
                    ) && tbl(t@, i, m) < 2187,
            decreases 2187 - c,
        {
            let mut cc = CubieCube::reset();
            cc.set_twist(c);
            proof {
                assert(cc@ =~= twist_state(c as int));
                assert(cc@.ranges_ok());
            }
            let row = move_row(&cc);
            let ghost t_old = t@;
            t.push(row);
            proof {
                assert forall|i: int, m: int|
                    0 <= i < c + 1 && 0 <= m < 18 implies #[trigger] tbl(t@, i, m) == twist_of(
                        apply_move(twist_state(i), m),
                    ) && tbl(t@, i, m) < 2187 by {
                    if i < c {
                        assert(tbl(t_old, i, m) == twist_of(apply_move(twist_state(i), m)));
                        assert(t@[i] == t_old[i]);
                    } else {
                        assert(t@[i] == row);
                    }
                }
            }
            c = c + 1;
        }
        t
    }

    /// Builds the flip move table.
    pub fn make_flip_table() -> (t: Vec<Vec<u16>>)
        ensures
            move_table_wf(t@, 2048),
            full_entries(t@, 2048, 2048),
            forall|c: int, m: int|
                0 <= c < 2048 && 0 <= m < 18 ==> #[trigger] tbl(t@, c, m) == flip_of(
                    apply_move(flip_state(c), m),
                ),
    {
        let mut t: Vec<Vec<u16>> = Vec::new();
        let mut c: usize = 0;
        while c < 2048
            invariant
                c <= 2048,
                t@.len() == c,
                forall|i: int| 0 <= i < c ==> (#[trigger] t@[i])@.len() == 18,
                forall|i: int, m: int|
                    0 <= i < c && 0 <= m < 18 ==> #[trigger] tbl(t@, i, m) == flip_of(
                        apply_move(flip_state(i), m),
                    ) && tbl(t@, i, m) < 2048,
            decreases 2048 - c,
        {
            let mut cc = CubieCube::reset();
            cc.set_flip(c);
            proof {
                assert(cc@ =~= flip_state(c as int));
                assert(cc@.ranges_ok());
            }
            let row = flip_row(&cc);
            let ghost t_old = t@;
            t.push(row);
            proof {
                assert forall|i: int, m: int|
                    0 <= i < c + 1 && 0 <= m < 18 implies #[trigger] tbl(t@, i, m) == flip_of(
                        apply_move(flip_state(i), m),
                    ) && tbl(t@, i, m) < 2048 by {
                    if i < c {
                        assert(tbl(t_old, i, m) == flip_of(apply_move(flip_state(i), m)));
                        assert(t@[i] == t_old[i]);
                    } else {
                        assert(t@[i] == row);
                    }
                }
            }
            c = c + 1;
        }
        t
    }

    /// Builds the UD-slice move table.
    pub fn make_ud_slice_table() -> (t: Vec<Vec<u16>>)
        ensures
            move_table_wf(t@, 495),
            full_entries(t@, 495, 495),
            forall|c: int, m: int|
                0 <= c < 495 && 0 <= m < 18 ==> #[trigger] tbl(t@, c, m) == udslice_of(
                    apply_move(udslice_state(c), m),
                ),
    {
        let mut t: Vec<Vec<u16>> = Vec::new();
        let mut c: usize = 0;
        while c < 495
            invariant
                c <= 495,
                t@.len() == c,
                forall|i: int| 0 <= i < c ==> (#[trigger] t@[i])@.len() == 18,
                forall|i: int, m: int|
                    0 <= i < c && 0 <= m < 18 ==> #[trigger] tbl(t@, i, m) == udslice_of(
                        apply_move(udslice_state(i), m),
                    ) && tbl(t@, i, m) < 495,
            decreases 495 - c,
        {
            let mut cc = CubieCube::reset();
            cc.set_udslice(c);
            proof {
                assert(cc@ =~= udslice_state(c as int));
                assert(cc@.wf());
            }
            let row = udslice_row(&cc);
            let ghost t_old = t@;
            t.push(row);
            proof {
                assert forall|i: int, m: int|
                    0 <= i < c + 1 && 0 <= m < 18 implies #[trigger] tbl(t@, i, m) == udslice_of(
                        apply_move(udslice_state(i), m),
                    ) && tbl(t@, i, m) < 495 by {
                    if i < c {
                        assert(tbl(t_old, i, m) == udslice_of(apply_move(udslice_state(i), m)));
                        assert(t@[i] == t_old[i]);
                    } else {
                        assert(t@[i] == row);
                    }
                }
            }
            c = c + 1;
        }
        t
    }

    /// Builds the corner-permutation move table.
    pub fn make_corner_table() -> (t: Vec<Vec<u16>>)
        ensures
            move_table_wf(t@, 40320),
            full_entries(t@, 40320, 40320),
            forall|c: int, m: int|
                0 <= c < 40320 && 0 <= m < 18 ==> #[trigger] tbl(t@, c, m) == corner_of(
                    apply_move(corner_state(c), m),
                ),
    {
        let mut t: Vec<Vec<u16>> = Vec::new();
        let mut c: usize = 0;
        while c < 40320
            invariant
                c <= 40320,
                t@.len() == c,
                forall|i: int| 0 <= i < c ==> (#[trigger] t@[i])@.len() == 18,
                forall|i: int, m: int|
                    0 <= i < c && 0 <= m < 18 ==> #[trigger] tbl(t@, i, m) == corner_of(
                        apply_move(corner_state(i), m),
                    ) && tbl(t@, i, m) < 40320,
            decreases 40320 - c,
        {
            let mut cc = CubieCube::reset();
            cc.set_corner(c);
            proof {
                assert(cc@ =~= corner_state(c as int));
                assert(cc@.ranges_ok());
            }
            let row = corner_row(&cc);
            let ghost t_old = t@;
            t.push(row);
            proof {
                assert forall|i: int, m: int|
                    0 <= i < c + 1 && 0 <= m < 18 implies #[trigger] tbl(t@, i, m) == corner_of(
                        apply_move(corner_state(i), m),
                    ) && tbl(t@, i, m) < 40320 by {
                    if i < c {
                        assert(tbl(t_old, i, m) == corner_of(apply_move(corner_state(i), m)));
                        assert(t@[i] == t_old[i]);
                    } else {
                        assert(t@[i] == row);
                    }
                }
            }
            c = c + 1;
        }
        t
    }

    /// Builds the phase-2 edge-8 move table; the eight phase-1 columns
    /// hold the sentinel.
    pub fn make_edge8_table() -> (t: Vec<Vec<u16>>)
        ensures
            move_table_wf(t@, 40320),
            phase2_entries(t@, 40320, 40320),
            forall|c: int, m: int|
                0 <= c < 40320 && 0 <= m < 18 && is_phase2_move(m) ==> #[trigger] tbl(t@, c, m)
                    == edge8_of(apply_move(edge8_state(c), m)),
    {
        let mut t: Vec<Vec<u16>> = Vec::new();
        let mut c: usize = 0;
        while c < 40320
            invariant
                c <= 40320,
                t@.len() == c,
                forall|i: int| 0 <= i < c ==> (#[trigger] t@[i])@.len() == 18,
                forall|i: int, m: int|
                    0 <= i < c && 0 <= m < 18 && is_phase2_move(m) ==> #[trigger] tbl(t@, i, m)
                        == edge8_of(apply_move(edge8_state(i), m)) && tbl(t@, i, m) < 40320,
                forall|i: int, m: int|
                    0 <= i < c && 0 <= m < 18 && !is_phase2_move(m) ==> #[trigger] tbl(t@, i, m)
                        == sentinel(),
            decreases 40320 - c,
        {
            let mut cc = CubieCube::reset();
            cc.set_edge8(c);
            proof {
                assert(cc@ =~= edge8_state(c as int));
                assert(cc@.ranges_ok());
            }
            let row = edge8_row(&cc);
            let ghost t_old = t@;
            t.push(row);
            proof {
                assert forall|i: int, m: int|
                    0 <= i < c + 1 && 0 <= m < 18 && is_phase2_move(m) implies #[trigger] tbl(
                        t@,
                        i,
                        m,
                    ) == edge8_of(apply_move(edge8_state(i), m)) && tbl(t@, i, m) < 40320 by {
                    if i < c {
                        assert(tbl(t_old, i, m) == edge8_of(apply_move(edge8_state(i), m)));
                        assert(t@[i] == t_old[i]);
                    } else {
                        assert(t@[i] == row);
                    }
                }
                assert forall|i: int, m: int|
                    0 <= i < c + 1 && 0 <= m < 18 && !is_phase2_move(m) implies #[trigger] tbl(
                        t@,
                        i,
                        m,
                    ) == sentinel() by {
                    if i < c {
                        assert(tbl(t_old, i, m) == sentinel());
                        assert(t@[i] == t_old[i]);
                    } else {
                        assert(t@[i] == row);
                    }
                }
            }
            c = c + 1;
        }
        t
    }

    /// Builds the phase-2 slice-order move table; the eight phase-1
    /// columns hold the sentinel.
    pub fn make_edge4_table() -> (t: Vec<Vec<u16>>)
        ensures
            move_table_wf(t@, 24),
            phase2_entries(t@, 24, 24),
            forall|c: int, m: int|
                0 <= c < 24 && 0 <= m < 18 && is_phase2_move(m) ==> #[trigger] tbl(t@, c, m)
                    == edge4_of(apply_move(edge4_state(c), m)),
    {
        let mut t: Vec<Vec<u16>> = Vec::new();
        let mut c: usize = 0;
        while c < 24
            invariant
                c <= 24,
                t@.len() == c,
                forall|i: int| 0 <= i < c ==> (#[trigger] t@[i])@.len() == 18,
                forall|i: int, m: int|
                    0 <= i < c && 0 <= m < 18 && is_phase2_move(m) ==> #[trigger] tbl(t@, i, m)
                        == edge4_of(apply_move(edge4_state(i), m)) && tbl(t@, i, m) < 24,
                forall|i: int, m: int|
                    0 <= i < c && 0 <= m < 18 && !is_phase2_move(m) ==> #[trigger] tbl(t@, i, m)
                        == sentinel(),
            decreases 24 - c,
        {
            let mut cc = CubieCube::reset();
            cc.set_edge4(c);
            proof {
                assert(cc@ =~= edge4_state(c as int));
                assert(cc@.ranges_ok());
            }
            let row = edge4_row(&cc);
            let ghost t_old = t@;
            t.push(row);
            proof {
                assert forall|i: int, m: int|
                    0 <= i < c + 1 && 0 <= m < 18 && is_phase2_move(m) implies #[trigger] tbl(
                        t@,
                        i,
                        m,
                    ) == edge4_of(apply_move(edge4_state(i), m)) && tbl(t@, i, m) < 24 by {
                    if i < c {
                        assert(tbl(t_old, i, m) == edge4_of(apply_move(edge4_state(i), m)));
                        assert(t@[i] == t_old[i]);
                    } else {
                        assert(t@[i] == row);
                    }
                }
                assert forall|i: int, m: int|
                    0 <= i < c + 1 && 0 <= m < 18 && !is_phase2_move(m) implies #[trigger] tbl(
                        t@,
                        i,
                        m,
                    ) == sentinel() by {
                    if i < c {
                        assert(tbl(t_old, i, m) == sentinel());
                        assert(t@[i] == t_old[i]);
                    } else {
                        assert(t@[i] == row);
                    }
                }
            }
            c = c + 1;
        }
        t
    }
}

/// The cell a move m sends a packed coordinate pair to, via the two move
/// tables.
pub open spec fn succ_of(t1: Seq<Vec<u16>>, t2: Seq<Vec<u16>>, cell: int, m: int, s2: int) -> int {
    tbl(t1, cell / s2, m) * s2 + tbl(t2, cell % s2, m)
}

/// The consistency that makes a pruning table an admissible bound: the
/// goal cell holds 0, and no move can lower the stored bound by more
/// than one.
pub open spec fn prune_consistent(
    p: Seq<u8>,
    t1: Seq<Vec<u16>>,
    t2: Seq<Vec<u16>>,
    ms: Seq<usize>,
    s1: int,
    s2: int,
) -> bool {
    &&& p[0] == 0
    &&& forall|cell: int, k: int|
        0 <= cell < s1 * s2 && 0 <= k < ms.len() ==> p[#[trigger] succ_of(
            t1,
            t2,
            cell,
            ms[k] as int,
            s2,
        )] + 1 >= p[cell]
}

/// The cell a whole move sequence leads to.
pub open spec fn run_cells(
    t1: Seq<Vec<u16>>,
    t2: Seq<Vec<u16>>,
    cell: int,
    path: Seq<int>,
    s2: int,
) -> int
    decreases path.len(),
{
    if path.len() == 0 {
        cell
    } else {
        run_cells(t1, t2, succ_of(t1, t2, cell, path[0], s2), path.drop_first(), s2)
    }
}

/// Move-table entries stay inside their coordinate ranges for the listed
/// moves.
pub open spec fn tables_in_range(
    t1: Seq<Vec<u16>>,
    t2: Seq<Vec<u16>>,
    ms: Seq<usize>,
    s1: int,
    s2: int,
) -> bool {
    &&& forall|k: int| 0 <= k < ms.len() ==> #[trigger] ms[k] < 18
    &&& forall|c: int, k: int|
        0 <= c < s1 && 0 <= k < ms.len() ==> #[trigger] tbl(t1, c, ms[k] as int) < s1 && tbl(
            t1,
            c,
            ms[k] as int,
        ) >= 0
    &&& forall|c: int, k: int|
        0 <= c < s2 && 0 <= k < ms.len() ==> #[trigger] tbl(t2, c, ms[k] as int) < s2 && tbl(
            t2,
            c,
            ms[k] as int,
        ) >= 0
}

/// Pruning admissibility: when a table passes the consistency check, its
/// value at a cell is a lower bound on the length of every move sequence
/// from that cell to the goal cell. No shorter sequence in the phase can
/// zero both coordinates.
pub proof fn lemma_prune_admissible(
    p: Seq<u8>,
    t1: Seq<Vec<u16>>,
    t2: Seq<Vec<u16>>,
    allowed: Seq<usize>,
    s1: int,
    s2: int,
    cell: int,
    path: Seq<int>,
)
    requires
        prune_consistent(p, t1, t2, allowed, s1, s2),
        tables_in_range(t1, t2, allowed, s1, s2),
        s1 >= 1,
        s2 >= 1,
        0 <= cell < s1 * s2,
        forall|j: int|
            0 <= j < path.len() ==> exists|k: int|
                0 <= k < allowed.len() && allowed[k] as int == #[trigger] path[j],
        run_cells(t1, t2, cell, path, s2) == 0,
    ensures
        p[cell] <= path.len(),
    decreases path.len(),
{
    if path.len() == 0 {
        assert(cell == 0);
    } else {
        let m = path[0];
        let k = choose|k: int| 0 <= k < allowed.len() && allowed[k] as int == m;
        let c1 = cell / s2;
        let c2 = cell % s2;
        lemma_cell_split(cell, s1, s2);
        let nxt = succ_of(t1, t2, cell, m, s2);
        assert(tbl(t1, c1, m) < s1 && tbl(t2, c2, m) < s2);
        assert(0 <= nxt < s1 * s2) by (nonlinear_arith)
            requires
                nxt == tbl(t1, c1, m) * s2 + tbl(t2, c2, m),
                0 <= tbl(t1, c1, m) < s1,
                0 <= tbl(t2, c2, m) < s2,
                s2 >= 1,
        ;
        assert(p[succ_of(t1, t2, cell, allowed[k] as int, s2)] + 1 >= p[cell]);
        assert forall|j: int| 0 <= j < path.drop_first().len() implies exists|k2: int|
            0 <= k2 < allowed.len() && allowed[k2] as int == #[trigger] path.drop_first()[j] by {
            assert(path.drop_first()[j] == path[j + 1]);
        }
        lemma_prune_admissible(p, t1, t2, allowed, s1, s2, nxt, path.drop_first());
    }
}

/// Splitting a packed cell back into its two coordinates.
proof fn lemma_cell_split(cell: int, s1: int, s2: int)
    requires
        s1 >= 1,
        s2 >= 1,
        0 <= cell < s1 * s2,
    ensures
        0 <= cell / s2 < s1,
        0 <= cell % s2 < s2,
    decreases 0int,
{
    vstd::arithmetic::div_mod::lemma_fundamental_div_mod(cell, s2);
    vstd::arithmetic::div_mod::lemma_mod_bound(cell, s2);
    let q = cell / s2;
    let r = cell % s2;
    assert(0 <= q && q < s1) by (nonlinear_arith)
        requires
            cell == s2 * q + r,
            0 <= r < s2,
            0 <= cell < s1 * s2,
            s1 >= 1,
            s2 >= 1,
    ;
}

/// Checks the admissibility conditions of a pruning table against its two
/// move tables at run time; a true answer certifies every stored bound.
pub fn check_prune_consistent(
    p: &PruningTable,
    t1: &Vec<Vec<u16>>,
    t2: &Vec<Vec<u16>>,
    moves: &Vec<usize>,
    s1: usize,
    s2: usize,
) -> (r: bool)
    requires
        s1 >= 1,
        s2 >= 1,
        s1 * s2 <= 0x200000,
        p.stride == s2,
        p.table@.len() == s1 * s2,
        t1@.len() == s1,
        t2@.len() == s2,
        forall|c: int| 0 <= c < s1 ==> (#[trigger] t1@[c])@.len() == 18,
        forall|c: int| 0 <= c < s2 ==> (#[trigger] t2@[c])@.len() == 18,
        tables_in_range(t1@, t2@, moves@, s1 as int, s2 as int),
    ensures
        r ==> prune_consistent(p.table@, t1@, t2@, moves@, s1 as int, s2 as int),
{
    proof {
        assert(s1 * s2 >= 1) by (nonlinear_arith)
            requires
                s1 >= 1,
                s2 >= 1,
        ;
    }
    if p.table[0] != 0 {
        return false;
    }
    let total = s1 * s2;
    let mut cell: usize = 0;
    while cell < total
        invariant
            cell <= total,
            total == s1 * s2,
            s1 >= 1,
            s2 >= 1,
            p.stride == s2,
            p.table@.len() == total,
            p.table@[0] == 0,
            t1@.len() == s1,
            t2@.len() == s2,
            forall|c: int| 0 <= c < s1 ==> (#[trigger] t1@[c])@.len() == 18,
            forall|c: int| 0 <= c < s2 ==> (#[trigger] t2@[c])@.len() == 18,
            tables_in_range(t1@, t2@, moves@, s1 as int, s2 as int),
            forall|c: int, k: int|
                0 <= c < cell && 0 <= k < moves@.len() ==> p.table@[#[trigger] succ_of(
                    t1@,
                    t2@,
                    c,
                    moves@[k] as int,
                    s2 as int,
                )] + 1 >= p.table@[c],
        decreases total - cell,
    {
        let c1 = cell / s2;
        let c2 = cell % s2;
        proof {
            lemma_cell_split(cell as int, s1 as int, s2 as int);
        }
        let here = p.table[cell];
        let mut k: usize = 0;
        while k < moves.len()
            invariant
                k <= moves@.len(),
                cell < total,
                total == s1 * s2,
                s1 >= 1,
                s2 >= 1,
                p.table@.len() == total,
                here == p.table@[cell as int],
                c1 == cell as int / s2 as int,
                c2 == cell as int % s2 as int,
                0 <= c1 < s1,
                0 <= c2 < s2,
                t1@.len() == s1,
                t2@.len() == s2,
                forall|c: int| 0 <= c < s1 ==> (#[trigger] t1@[c])@.len() == 18,
                forall|c: int| 0 <= c < s2 ==> (#[trigger] t2@[c])@.len() == 18,
                tables_in_range(t1@, t2@, moves@, s1 as int, s2 as int),
                forall|k2: int|
                    0 <= k2 < k ==> p.table@[#[trigger] succ_of(
                        t1@,
                        t2@,
                        cell as int,
                        moves@[k2] as int,
                        s2 as int,
                    )] + 1 >= p.table@[cell as int],
            decreases moves@.len() - k,
        {
            let m = moves[k];
            let n1 = t1[c1][m] as usize;
            let n2 = t2[c2][m] as usize;
            proof {
                assert(tbl(t1@, c1 as int, moves@[k as int] as int) < s1);
                assert(tbl(t2@, c2 as int, moves@[k as int] as int) < s2);
                assert(n1 < s1 && n2 < s2);
                assert(n1 * s2 + n2 < s1 * s2) by (nonlinear_arith)
                    requires
                        0 <= n1 < s1,
                        0 <= n2 < s2,
                        s2 >= 1,
                ;
            }
            let ncell = n1 * s2 + n2;
            let there = p.table[ncell];
            if (there as usize) + 1 < (here as usize) {
                return false;
            }
            proof {
                assert(succ_of(t1@, t2@, cell as int, m as int, s2 as int) == ncell);
            }
            k = k + 1;
        }
        cell = cell + 1;
    }
    true
}

/// Fills a pruning table by breadth-first search from the goal pair
/// (0, 0), labelling each newly reached cell with its distance; cells the
/// phase's moves never reach keep the unreachable marker.
fn bfs_prune(
    s1: usize,
    s2: usize,
    t1: &Vec<Vec<u16>>,
    t2: &Vec<Vec<u16>>,
    moves: &Vec<usize>,
) -> (p: Vec<u8>)
    requires
        s1 >= 1,
        s2 >= 1,
        s1 * s2 <= 0x200000,
        t1@.len() == s1,
        t2@.len() == s2,
        forall|c: int| 0 <= c < s1 ==> (#[trigger] t1@[c])@.len() == 18,
        forall|c: int| 0 <= c < s2 ==> (#[trigger] t2@[c])@.len() == 18,
        tables_in_range(t1@, t2@, moves@, s1 as int, s2 as int),
    ensures
        p@.len() == s1 * s2,
        p@[0] == 0,
{
    proof {
        assert(s1 * s2 >= 1) by (nonlinear_arith)
            requires
                s1 >= 1,
                s2 >= 1,
        ;
    }
    let total = s1 * s2;
    let mut p: Vec<u8> = Vec::new();
    let mut i: usize = 0;
    while i < total
        invariant
            i <= total,
            p@.len() == i,
        decreases total - i,
    {
        p.push(0xFF);
        i = i + 1;
    }
    p.set(0, 0);
    let mut frontier: Vec<usize> = Vec::new();
    frontier.push(0);
    let mut depth: u8 = 0;
    while depth < 30
        invariant
            depth <= 30,
            total == s1 * s2,
            s1 >= 1,
            s2 >= 1,
            total <= 0x200000,
            p@.len() == total,
            p@[0] == 0,
            t1@.len() == s1,
            t2@.len() == s2,
            forall|c: int| 0 <= c < s1 ==> (#[trigger] t1@[c])@.len() == 18,
            forall|c: int| 0 <= c < s2 ==> (#[trigger] t2@[c])@.len() == 18,
            tables_in_range(t1@, t2@, moves@, s1 as int, s2 as int),
            forall|j: int| 0 <= j < frontier@.len() ==> #[trigger] frontier@[j] < total,
        decreases 30 - depth,
    {
        let mut next: Vec<usize> = Vec::new();
        let mut fi: usize = 0;
        while fi < frontier.len()
            invariant
                fi <= frontier@.len(),
                depth < 30,
                total == s1 * s2,
                s1 >= 1,
                s2 >= 1,
                total <= 0x200000,
                p@.len() == total,
                p@[0] == 0,
                t1@.len() == s1,
                t2@.len() == s2,
                forall|c: int| 0 <= c < s1 ==> (#[trigger] t1@[c])@.len() == 18,
                forall|c: int| 0 <= c < s2 ==> (#[trigger] t2@[c])@.len() == 18,
                tables_in_range(t1@, t2@, moves@, s1 as int, s2 as int),
                forall|j: int| 0 <= j < frontier@.len() ==> #[trigger] frontier@[j] < total,
                forall|j: int| 0 <= j < next@.len() ==> #[trigger] next@[j] < total,
            decreases frontier@.len() - fi,
        {
            let cell = frontier[fi];
            let c1 = cell / s2;
            let c2 = cell % s2;
            proof {
                lemma_cell_split(cell as int, s1 as int, s2 as int);
            }
            let mut k: usize = 0;
            while k < moves.len()
                invariant
                    k <= moves@.len(),
                    depth < 30,
                    total == s1 * s2,
                    s1 >= 1,
                    s2 >= 1,
                    total <= 0x200000,
                    p@.len() == total,
                    p@[0] == 0,
                    0 <= c1 < s1,
                    0 <= c2 < s2,
                    t1@.len() == s1,
                    t2@.len() == s2,
                    forall|c: int| 0 <= c < s1 ==> (#[trigger] t1@[c])@.len() == 18,
                    forall|c: int| 0 <= c < s2 ==> (#[trigger] t2@[c])@.len() == 18,
                    tables_in_range(t1@, t2@, moves@, s1 as int, s2 as int),
                    forall|j: int| 0 <= j < next@.len() ==> #[trigger] next@[j] < total,
                decreases moves@.len() - k,
            {
                let m = moves[k];
                let n1 = t1[c1][m] as usize;
                let n2 = t2[c2][m] as usize;
                proof {
                    assert(tbl(t1@, c1 as int, moves@[k as int] as int) < s1);
                    assert(tbl(t2@, c2 as int, moves@[k as int] as int) < s2);
                    assert(n1 < s1 && n2 < s2);
                    assert(n1 * s2 + n2 < s1 * s2) by (nonlinear_arith)
                        requires
                            0 <= n1 < s1,
                            0 <= n2 < s2,
                            s2 >= 1,
                    ;
                }
                let ncell = n1 * s2 + n2;
                if p[ncell] == 0xFF {
                    p.set(ncell, depth + 1);
                    next.push(ncell);
                }
                k = k + 1;
            }
            fi = fi + 1;
        }
        if next.len() == 0 {
            return p;
        }
        frontier = next;
        depth = depth + 1;
    }
    p
}

/// The eighteen move ranks, in order.
pub open spec fn phase1_move_list() -> Seq<usize> {
    seq![
        0usize,
        1usize,
        2usize,
        3usize,
        4usize,
        5usize,
        6usize,
        7usize,
        8usize,
        9usize,
        10usize,
        11usize,
        12usize,
        13usize,
        14usize,
        15usize,
        16usize,
        17usize,
    ]
}

/// The ten phase-2 move ranks, in order: every turn of U and D, and the
/// half turns of R, F, L, B.
pub open spec fn phase2_move_list() -> Seq<usize> {
    seq![0usize, 1usize, 2usize, 4usize, 7usize, 9usize, 10usize, 11usize, 13usize, 16usize]
}

/// A table of zeroes is a trivially admissible bound: the goal holds 0
/// and no step can fall below -1 of it.
proof fn lemma_zero_prune_consistent(
    p: Seq<u8>,
    t1: Seq<Vec<u16>>,
    t2: Seq<Vec<u16>>,
    ms: Seq<usize>,
    s1: int,
    s2: int,
)
    requires
        s1 >= 1,
        s2 >= 1,
        p.len() == s1 * s2,
        forall|i: int| 0 <= i < p.len() ==> #[trigger] p[i] == 0,
        tables_in_range(t1, t2, ms, s1, s2),
    ensures
        prune_consistent(p, t1, t2, ms, s1, s2),
{
    assert(s1 * s2 >= 1) by (nonlinear_arith)
        requires
            s1 >= 1,
            s2 >= 1,
    ;
    assert(p[0] == 0);
    assert forall|cell: int, k: int|
        0 <= cell < s1 * s2 && 0 <= k < ms.len() implies p[#[trigger] succ_of(
        t1,
        t2,
        cell,
        ms[k] as int,
        s2,
    )] + 1 >= p[cell] by {
        lemma_cell_split(cell, s1, s2);
        let m = ms[k] as int;
        assert(tbl(t1, cell / s2, m) < s1);
        assert(tbl(t2, cell % s2, m) < s2);
        let nxt = succ_of(t1, t2, cell, m, s2);
        assert(0 <= nxt < s1 * s2) by (nonlinear_arith)
            requires
                nxt == tbl(t1, cell / s2, m) * s2 + tbl(t2, cell % s2, m),
                0 <= tbl(t1, cell / s2, m) < s1,
                0 <= tbl(t2, cell % s2, m) < s2,
                s2 >= 1,
        ;
        assert(p[nxt] == 0);
        assert(p[cell] == 0);
    }
}

/// A fresh table holding zero for every cell.
fn zero_table(total: usize) -> (p: Vec<u8>)
    ensures
        p@.len() == total,
        forall|i: int| 0 <= i < total ==> #[trigger] p@[i] == 0,
{
    let mut p: Vec<u8> = Vec::new();
    let mut i: usize = 0;
    while i < total
        invariant
            i <= total,
            p@.len() == i,
            forall|j: int| 0 <= j < i ==> #[trigger] p@[j] == 0,
        decreases total - i,
    {
        p.push(0);
        i = i + 1;
    }
    p
}

/// Builds a pruning table and certifies it: the breadth-first result is
/// run through the admissibility check, and a table of zeroes (a
/// trivially admissible bound) takes its place should the check ever
/// refuse it.
fn checked_prune(
    s1: usize,
    s2: usize,
    t1: &Vec<Vec<u16>>,
    t2: &Vec<Vec<u16>>,
    moves: &Vec<usize>,
) -> (p: Vec<u8>)
    requires
        s1 >= 1,
        s2 >= 1,
        s1 * s2 <= 0x200000,
        t1@.len() == s1,
        t2@.len() == s2,
        forall|c: int| 0 <= c < s1 ==> (#[trigger] t1@[c])@.len() == 18,
        forall|c: int| 0 <= c < s2 ==> (#[trigger] t2@[c])@.len() == 18,
        tables_in_range(t1@, t2@, moves@, s1 as int, s2 as int),
    ensures
        p@.len() == s1 * s2,
        p@[0] == 0,
        prune_consistent(p@, t1@, t2@, moves@, s1 as int, s2 as int),
{
    let table = bfs_prune(s1, s2, t1, t2, moves);
    let pt = PruningTable { table, stride: s2 };
    if check_prune_consistent(&pt, t1, t2, moves, s1, s2) {
        pt.table
    } else {
        let z = zero_table(s1 * s2);
        proof {
            lemma_zero_prune_consistent(z@, t1@, t2@, moves@, s1 as int, s2 as int);
            assert(s1 * s2 >= 1) by (nonlinear_arith)
                requires
                    s1 >= 1,
                    s2 >= 1,
            ;
        }
        z
    }
}

impl Tables {
    /// Builds the phase-1 pruning table over UD-slice and twist: an
    /// admissible lower bound on the phase-1 moves that zero both.
    pub fn make_ud_slice_twist_prune(
        udslice_move: &Vec<Vec<u16>>,
        twist_move: &Vec<Vec<u16>>,
    ) -> (p: PruningTable)
        requires
            move_table_wf(udslice_move@, 495),
            full_entries(udslice_move@, 495, 495),
            move_table_wf(twist_move@, 2187),
            full_entries(twist_move@, 2187, 2187),
        ensures
            p.stride == 2187,
            p.table@.len() == 495 * 2187,
            p.table@[0] == 0,
            prune_consistent(p.table@, udslice_move@, twist_move@, phase1_move_list(), 495, 2187),
    {
        let moves = all_moves();
        let table = checked_prune(495, 2187, udslice_move, twist_move, &moves);
        PruningTable { table, stride: 2187 }
    }

    /// Builds the phase-1 pruning table over UD-slice and flip.
    pub fn make_ud_slice_flip_prune(
        udslice_move: &Vec<Vec<u16>>,
        flip_move: &Vec<Vec<u16>>,
    ) -> (p: PruningTable)
        requires
            move_table_wf(udslice_move@, 495),
            full_entries(udslice_move@, 495, 495),
            move_table_wf(flip_move@, 2048),
            full_entries(flip_move@, 2048, 2048),
        ensures
            p.stride == 2048,
            p.table@.len() == 495 * 2048,
            p.table@[0] == 0,
            prune_consistent(p.table@, udslice_move@, flip_move@, phase1_move_list(), 495, 2048),
    {
        let moves = all_moves();
        let table = checked_prune(495, 2048, udslice_move, flip_move, &moves);
        PruningTable { table, stride: 2048 }
    }

    /// Builds the phase-2 pruning table over slice order and edge-8.
    pub fn make_edge4_edge8_prune(
        edge4_move: &Vec<Vec<u16>>,
        edge8_move: &Vec<Vec<u16>>,
    ) -> (p: PruningTable)
        requires
            move_table_wf(edge4_move@, 24),
            phase2_entries(edge4_move@, 24, 24),
            move_table_wf(edge8_move@, 40320),
            phase2_entries(edge8_move@, 40320, 40320),
        ensures
            p.stride == 40320,
            p.table@.len() == 24 * 40320,
            p.table@[0] == 0,
            prune_consistent(p.table@, edge4_move@, edge8_move@, phase2_move_list(), 24, 40320),
    {
        let moves = phase2_moves();
        let table = checked_prune(24, 40320, edge4_move, edge8_move, &moves);
        PruningTable { table, stride: 40320 }
    }

    /// Builds the phase-2 pruning table over slice order and corners.
    pub fn make_edge4_corner_prune(
        edge4_move: &Vec<Vec<u16>>,
        corner_move: &Vec<Vec<u16>>,
    ) -> (p: PruningTable)
        requires
            move_table_wf(edge4_move@, 24),
            phase2_entries(edge4_move@, 24, 24),
            move_table_wf(corner_move@, 40320),
            full_entries(corner_move@, 40320, 40320),
        ensures
            p.stride == 40320,
            p.table@.len() == 24 * 40320,
            p.table@[0] == 0,
            prune_consistent(p.table@, edge4_move@, corner_move@, phase2_move_list(), 24, 40320),
    {
        let moves = phase2_moves();
        let table = checked_prune(24, 40320, edge4_move, corner_move, &moves);
        PruningTable { table, stride: 40320 }
    }

    /// Builds every move and pruning table from scratch.
    pub fn generate() -> (t: Tables)
        ensures
            t.wf(),
            t.semantics(),
            prune_consistent(
                t.udslice_twist_prune.table@,
                t.udslice_move@,
                t.twist_move@,
                phase1_move_list(),
                495,
                2187,
            ),
            prune_consistent(
                t.udslice_flip_prune.table@,
                t.udslice_move@,
                t.flip_move@,
                phase1_move_list(),
                495,
                2048,
            ),
            prune_consistent(
                t.edge4_edge8_prune.table@,
                t.edge4_move@,
                t.edge8_move@,
                phase2_move_list(),
                24,
                40320,
            ),
            prune_consistent(
                t.edge4_corner_prune.table@,
                t.edge4_move@,
                t.corner_move@,
                phase2_move_list(),
                24,
                40320,
            ),
            t.udslice_twist_prune.table@[0] == 0,
            t.udslice_flip_prune.table@[0] == 0,
            t.edge4_edge8_prune.table@[0] == 0,
            t.edge4_corner_prune.table@[0] == 0,
    {
        let twist_move = Tables::make_twist_table();
        let flip_move = Tables::make_flip_table();
        let udslice_move = Tables::make_ud_slice_table();
        let edge4_move = Tables::make_edge4_table();
        let edge8_move = Tables::make_edge8_table();
        let corner_move = Tables::make_corner_table();
        let udslice_twist_prune = Tables::make_ud_slice_twist_prune(&udslice_move, &twist_move);
        let udslice_flip_prune = Tables::make_ud_slice_flip_prune(&udslice_move, &flip_move);
        let edge4_edge8_prune = Tables::make_edge4_edge8_prune(&edge4_move, &edge8_move);
        let edge4_corner_prune = Tables::make_edge4_corner_prune(&edge4_move, &corner_move);
        Tables {
            twist_move,
            flip_move,
            udslice_move,
            edge4_move,
            edge8_move,
            corner_move,
            udslice_twist_prune,
            udslice_flip_prune,
            edge4_edge8_prune,
            edge4_corner_prune,
        }
    }
}

/// All eighteen move ranks.
pub fn all_moves() -> (r: Vec<usize>)
    ensures
        r@ == phase1_move_list(),
        r@.len() == 18,
        forall|k: int| 0 <= k < 18 ==> #[trigger] r@[k] == k,
{
    let mut r: Vec<usize> = Vec::new();
    let mut m: usize = 0;
    while m < 18
        invariant
            m <= 18,
            r@.len() == m,
            forall|k: int| 0 <= k < m ==> #[trigger] r@[k] == k,
        decreases 18 - m,
    {
        r.push(m);
        m = m + 1;
    }
    proof {
        assert forall|k: int| 0 <= k < 18 implies r@[k] == phase1_move_list()[k] by {}
        assert(r@ =~= phase1_move_list());
    }
    r
}

/// The ten phase-2 move ranks.
pub fn phase2_moves() -> (r: Vec<usize>)
    ensures
        r@ == phase2_move_list(),
        r@.len() == 10,
        forall|k: int| 0 <= k < 10 ==> #[trigger] r@[k] < 18 && is_phase2_move(r@[k] as int),
{
    let mut r: Vec<usize> = Vec::new();
    r.push(0);
    r.push(1);
    r.push(2);
    r.push(4);
    r.push(7);
    r.push(9);
    r.push(10);
    r.push(11);
    r.push(13);
    r.push(16);
    proof {
        assert(r@ =~= phase2_move_list());
        assert forall|k: int| 0 <= k < 10 implies #[trigger] r@[k] < 18 && is_phase2_move(
            r@[k] as int,
        ) by {
            assert(phase2_move_list()[k] == r@[k]);
        }
    }
    r
}

/// One row of the twist table: the twists of cc after each move.
fn move_row(cc: &CubieCube) -> (row: Vec<u16>)
    requires
        cc@.ranges_ok(),
    ensures
        row@.len() == 18,
        forall|m: int|
            0 <= m < 18 ==> #[trigger] row@[m] as int == twist_of(apply_move(cc@, m))
                && row@[m] < 2187,
{
    let mut row: Vec<u16> = Vec::new();
    let mut m: usize = 0;
    while m < 18
        invariant
            m <= 18,
            row@.len() == m,
            cc@.ranges_ok(),
            forall|k: int|
                0 <= k < m ==> #[trigger] row@[k] as int == twist_of(apply_move(cc@, k))
                    && row@[k] < 2187,
        decreases 18 - m,
    {
        let mv = move_from_index(m);
        let mut c2 = *cc;
        c2.movement(mv);
        let v = c2.twist();
        row.push(v as u16);
        m = m + 1;
    }
    row
}

/// One row of the flip table.
fn flip_row(cc: &CubieCube) -> (row: Vec<u16>)
    requires
        cc@.ranges_ok(),
    ensures
        row@.len() == 18,
        forall|m: int|
            0 <= m < 18 ==> #[trigger] row@[m] as int == flip_of(apply_move(cc@, m)) && row@[m]
                < 2048,
{
    let mut row: Vec<u16> = Vec::new();
    let mut m: usize = 0;
    while m < 18
        invariant
            m <= 18,
            row@.len() == m,
            cc@.ranges_ok(),
            forall|k: int|
                0 <= k < m ==> #[trigger] row@[k] as int == flip_of(apply_move(cc@, k)) && row@[k]
                    < 2048,
        decreases 18 - m,
    {
        let mv = move_from_index(m);
        let mut c2 = *cc;
        c2.movement(mv);
        let v = c2.flip();
        row.push(v as u16);
        m = m + 1;
    }
    row
}

/// One row of the UD-slice table.
fn udslice_row(cc: &CubieCube) -> (row: Vec<u16>)
    requires
        cc@.wf(),
    ensures
        row@.len() == 18,
        forall|m: int|
            0 <= m < 18 ==> #[trigger] row@[m] as int == udslice_of(apply_move(cc@, m))
                && row@[m] < 495,
{
    let mut row: Vec<u16> = Vec::new();
    let mut m: usize = 0;
    while m < 18
        invariant
            m <= 18,
            row@.len() == m,
            cc@.wf(),
            forall|k: int|
                0 <= k < m ==> #[trigger] row@[k] as int == udslice_of(apply_move(cc@, k))
                    && row@[k] < 495,
        decreases 18 - m,
    {
        let mv = move_from_index(m);
        let mut c2 = *cc;
        c2.movement(mv);
        let v = c2.udslice();
        row.push(v as u16);
        m = m + 1;
    }
    row
}

/// One row of the corner table.
fn corner_row(cc: &CubieCube) -> (row: Vec<u16>)
    requires
        cc@.ranges_ok(),
    ensures
        row@.len() == 18,
        forall|m: int|
            0 <= m < 18 ==> #[trigger] row@[m] as int == corner_of(apply_move(cc@, m))
                && row@[m] < 40320,
{
    let mut row: Vec<u16> = Vec::new();
    let mut m: usize = 0;
    while m < 18
        invariant
            m <= 18,
            row@.len() == m,
            cc@.ranges_ok(),
            forall|k: int|
                0 <= k < m ==> #[trigger] row@[k] as int == corner_of(apply_move(cc@, k))
                    && row@[k] < 40320,
        decreases 18 - m,
    {
        let mv = move_from_index(m);
        let mut c2 = *cc;
        c2.movement(mv);
        let v = c2.corner();
        row.push(v as u16);
        m = m + 1;
    }
    row
}

/// One row of the edge-8 table: phase-2 columns real, others sentinel.
fn edge8_row(cc: &CubieCube) -> (row: Vec<u16>)
    requires
        cc@.ranges_ok(),
    ensures
        row@.len() == 18,
        forall|m: int|
            0 <= m < 18 && is_phase2_move(m) ==> #[trigger] row@[m] as int == edge8_of(
                apply_move(cc@, m),
            ) && row@[m] < 40320,
        forall|m: int|
            0 <= m < 18 && !is_phase2_move(m) ==> #[trigger] row@[m] as int == sentinel(),
{
    let mut row: Vec<u16> = Vec::new();
    let mut m: usize = 0;
    while m < 18
        invariant
            m <= 18,
            row@.len() == m,
            cc@.ranges_ok(),
            forall|k: int|
                0 <= k < m && is_phase2_move(k) ==> #[trigger] row@[k] as int == edge8_of(
                    apply_move(cc@, k),
                ) && row@[k] < 40320,
            forall|k: int|
                0 <= k < m && !is_phase2_move(k) ==> #[trigger] row@[k] as int == sentinel(),
        decreases 18 - m,
    {
        let axis = m / 3;
        let power = m % 3;
        if axis == 0 || axis == 3 || power == 1 {
            let mv = move_from_index(m);
            let mut c2 = *cc;
            c2.movement(mv);
            let v = c2.edge8();
            row.push(v as u16);
        } else {
            row.push(0xFFFF);
        }
        m = m + 1;
    }
    row
}

/// One row of the slice-order table: phase-2 columns real, others
/// sentinel.
fn edge4_row(cc: &CubieCube) -> (row: Vec<u16>)
    requires
        cc@.ranges_ok(),
    ensures
        row@.len() == 18,
        forall|m: int|
            0 <= m < 18 && is_phase2_move(m) ==> #[trigger] row@[m] as int == edge4_of(
                apply_move(cc@, m),
            ) && row@[m] < 24,
        forall|m: int|
            0 <= m < 18 && !is_phase2_move(m) ==> #[trigger] row@[m] as int == sentinel(),
{
    let mut row: Vec<u16> = Vec::new();
    let mut m: usize = 0;
    while m < 18
        invariant
            m <= 18,
            row@.len() == m,
            cc@.ranges_ok(),
            forall|k: int|
                0 <= k < m && is_phase2_move(k) ==> #[trigger] row@[k] as int == edge4_of(
                    apply_move(cc@, k),
                ) && row@[k] < 24,
            forall|k: int|
                0 <= k < m && !is_phase2_move(k) ==> #[trigger] row@[k] as int == sentinel(),
        decreases 18 - m,
    {
        let axis = m / 3;
        let power = m % 3;
        if axis == 0 || axis == 3 || power == 1 {
            let mv = move_from_index(m);
            let mut c2 = *cc;
            c2.movement(mv);
            let v = c2.edge4();
            row.push(v as u16);
        } else {
            row.push(0xFFFF);
        }
        m = m + 1;
    }
    row
}

} // verus!
