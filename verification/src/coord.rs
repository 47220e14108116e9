//! The coordinate-level cube: the six integers that drive the two-phase
//! search, stepped by table lookup instead of cubie multiplication.

use vstd::prelude::*;
use crate::cubie::CubieCube;
use crate::cubie::twist_of;
use crate::cubie::flip_of;
use crate::cubie::udslice_of;
use crate::cubie::edge4_of;
use crate::cubie::edge8_of;
use crate::cubie::corner_of;
use crate::defs::Moves;
use crate::defs::move_index;
use crate::defs::move_to_index;
use crate::tables::Tables;
use crate::tables::tbl;

verus! {

/// A cube state projected onto the six search coordinates.
#[derive(Clone, Copy, Debug)]
pub struct CoordCube {
    pub twist: usize,
    pub flip: usize,
    pub udslice: usize,
    pub edge4: usize,
    pub edge8: usize,
    pub corner: usize,
}

impl CoordCube {
    /// All six coordinates within their ranges.
    pub open spec fn wf(self) -> bool {
        &&& self.twist < 2187
        &&& self.flip < 2048
        &&& self.udslice < 495
        &&& self.edge4 < 24
        &&& self.edge8 < 40320
        &&& self.corner < 40320
    }

    /// Projects a cubie cube onto its six coordinates.
    pub fn from_cubie_cube(cc: &CubieCube) -> (r: CoordCube)
        requires
            cc@.wf(),
        ensures
            r.twist == twist_of(cc@),
            r.flip == flip_of(cc@),
            r.udslice == udslice_of(cc@),
            r.edge4 == edge4_of(cc@),
            r.edge8 == edge8_of(cc@),
            r.corner == corner_of(cc@),
            r.wf(),
    {
        CoordCube {
            twist: cc.twist(),
            flip: cc.flip(),
            udslice: cc.udslice(),
            edge4: cc.edge4(),
            edge8: cc.edge8(),
            corner: cc.corner(),
        }
    }

    /// Steps every coordinate through the move tables. Returns true and
    /// updates all six when each table has a real entry for this move;
    /// returns false and changes nothing when any entry is the sentinel
    /// (a phase-1 move applied to a phase-2-only coordinate).
    pub fn movement(&mut self, m: Moves, tables: &Tables) -> (r: bool)
        requires
            old(self).wf(),
            tables.wf(),
        ensures
            final(self).wf(),
            ({
                let mi = move_index(m);
                if tbl(tables.edge4_move@, old(self).edge4 as int, mi) != 0xFFFF
                    && tbl(tables.edge8_move@, old(self).edge8 as int, mi) != 0xFFFF {
                    &&& r == true
                    &&& final(self).twist == tbl(tables.twist_move@, old(self).twist as int, mi)
                    &&& final(self).flip == tbl(tables.flip_move@, old(self).flip as int, mi)
                    &&& final(self).udslice == tbl(
                        tables.udslice_move@,
                        old(self).udslice as int,
                        mi,
                    )
                    &&& final(self).edge4 == tbl(tables.edge4_move@, old(self).edge4 as int, mi)
                    &&& final(self).edge8 == tbl(tables.edge8_move@, old(self).edge8 as int, mi)
                    &&& final(self).corner == tbl(tables.corner_move@, old(self).corner as int, mi)
                } else {
                    r == false && *final(self) == *old(self)
                }
            }),
    {
        let mi = move_to_index(m);
        let e4 = tables.edge4_move[self.edge4][mi];
        let e8 = tables.edge8_move[self.edge8][mi];
        if e4 != 0xFFFF && e8 != 0xFFFF {
            proof {
                assert(tbl(tables.twist_move@, self.twist as int, mi as int) < 2187);
                assert(tbl(tables.flip_move@, self.flip as int, mi as int) < 2048);
                assert(tbl(tables.udslice_move@, self.udslice as int, mi as int) < 495);
                assert(tbl(tables.corner_move@, self.corner as int, mi as int) < 40320);
                assert(tbl(tables.edge4_move@, self.edge4 as int, mi as int) < 24);
                assert(tbl(tables.edge8_move@, self.edge8 as int, mi as int) < 40320);
            }
            self.twist = tables.twist_move[self.twist][mi] as usize;
            self.flip = tables.flip_move[self.flip][mi] as usize;
            self.udslice = tables.udslice_move[self.udslice][mi] as usize;
            self.edge4 = e4 as usize;
            self.edge8 = e8 as usize;
            self.corner = tables.corner_move[self.corner][mi] as usize;
            true
        } else {
            false
        }
    }
}

} // verus!
