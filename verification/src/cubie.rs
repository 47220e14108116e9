//! The cubie-level cube: a permutation of the eight corner and twelve edge
//! pieces together with their orientations, composed by group
//! multiplication with six fixed face-generator cubes.

use vstd::prelude::*;
use vstd::prelude::VecAdditionalExecFns;
use crate::defs::Corner;
use crate::defs::Edge;
use crate::defs::corner_index;
use crate::defs::edge_index;
use crate::defs::corner_to_index;
use crate::defs::edge_to_index;
use crate::defs::corner_from_index;
use crate::defs::edge_from_index;
use crate::defs::facelet_to_index;
use crate::defs::Facelets;
use crate::defs::Moves;
use crate::defs::move_index;
use crate::defs::move_axis;
use crate::defs::move_power;
use crate::defs::move_to_index;
use crate::utility::binom;
use crate::utility::fact;

verus! {

/// The mathematical model of a cubie cube: four integer sequences holding
/// the corner permutation, corner orientations, edge permutation and edge
/// orientations.
#[verifier::ext_equal]
pub ghost struct CubieSpec {
    pub cp: Seq<int>,
    pub co: Seq<int>,
    pub ep: Seq<int>,
    pub eo: Seq<int>,
}

impl CubieSpec {
    /// Permutation entries name valid pieces and orientations lie in range
    /// (corners 0..3, edges 0..2).
    pub open spec fn ranges_ok(self) -> bool {
        &&& self.cp.len() == 8
        &&& self.co.len() == 8
        &&& self.ep.len() == 12
        &&& self.eo.len() == 12
        &&& forall|i: int| 0 <= i < 8 ==> 0 <= #[trigger] self.cp[i] < 8
        &&& forall|i: int| 0 <= i < 8 ==> 0 <= #[trigger] self.co[i] < 3
        &&& forall|i: int| 0 <= i < 12 ==> 0 <= #[trigger] self.ep[i] < 12
        &&& forall|i: int| 0 <= i < 12 ==> 0 <= #[trigger] self.eo[i] < 2
    }

    /// No piece occupies two slots.
    pub open spec fn injective(self) -> bool {
        &&& forall|i: int, j: int|
            0 <= i < 8 && 0 <= j < 8 && i != j ==> self.cp[i] != self.cp[j]
        &&& forall|i: int, j: int|
            0 <= i < 12 && 0 <= j < 12 && i != j ==> self.ep[i] != self.ep[j]
    }

    /// A well-formed cubie state: ranges in order and every piece in
    /// exactly one slot.
    pub open spec fn wf(self) -> bool {
        self.ranges_ok() && self.injective()
    }

    /// The identity cube: every piece home and unturned.
    pub open spec fn solved() -> CubieSpec {
        CubieSpec {
            cp: seq![0int, 1int, 2int, 3int, 4int, 5int, 6int, 7int],
            co: seq![0int, 0int, 0int, 0int, 0int, 0int, 0int, 0int],
            ep: seq![0int, 1int, 2int, 3int, 4int, 5int, 6int, 7int, 8int, 9int, 10int, 11int],
            eo: seq![0int, 0int, 0int, 0int, 0int, 0int, 0int, 0int, 0int, 0int, 0int, 0int],
        }
    }

    /// Group multiplication: slot i of the product holds the piece of
    /// slot b.cp[i] of a, turned further by b's orientation there.
    pub open spec fn mult(a: CubieSpec, b: CubieSpec) -> CubieSpec {
        CubieSpec {
            cp: Seq::new(8, |i: int| a.cp[b.cp[i]]),
            co: Seq::new(8, |i: int| (a.co[b.cp[i]] + b.co[i]) % 3),
            ep: Seq::new(12, |i: int| a.ep[b.ep[i]]),
            eo: Seq::new(12, |i: int| (a.eo[b.ep[i]] + b.eo[i]) % 2),
        }
    }
}

/// Composition keeps ranges in order.
pub proof fn lemma_mult_ranges(a: CubieSpec, b: CubieSpec)
    requires
        a.ranges_ok(),
        b.ranges_ok(),
    ensures
        CubieSpec::mult(a, b).ranges_ok(),
{
}

/// Composition of injective states is injective.
pub proof fn lemma_mult_injective(a: CubieSpec, b: CubieSpec)
    requires
        a.wf(),
        b.wf(),
    ensures
        CubieSpec::mult(a, b).wf(),
{
}

/// The six face-generator cubes, one quarter clockwise turn of each face,
/// in the axis order U, R, F, D, L, B. These constants fix the whole move
/// algebra; every move is one, two or three multiplications by one of
/// them.
pub open spec fn generator_spec(axis: int) -> CubieSpec {
    if axis == 0 {
        CubieSpec {
            cp: seq![3int, 0int, 1int, 2int, 4int, 5int, 6int, 7int],
            co: seq![0int, 0int, 0int, 0int, 0int, 0int, 0int, 0int],
            ep: seq![3int, 0int, 1int, 2int, 4int, 5int, 6int, 7int, 8int, 9int, 10int, 11int],
            eo: seq![0int, 0int, 0int, 0int, 0int, 0int, 0int, 0int, 0int, 0int, 0int, 0int],
        }
    } else if axis == 1 {
        CubieSpec {
            cp: seq![4int, 1int, 2int, 0int, 7int, 5int, 6int, 3int],
            co: seq![2int, 0int, 0int, 1int, 1int, 0int, 0int, 2int],
            ep: seq![8int, 1int, 2int, 3int, 11int, 5int, 6int, 7int, 4int, 9int, 10int, 0int],
            eo: seq![0int, 0int, 0int, 0int, 0int, 0int, 0int, 0int, 0int, 0int, 0int, 0int],
        }
    } else if axis == 2 {
        CubieSpec {
            cp: seq![1int, 5int, 2int, 3int, 0int, 4int, 6int, 7int],
            co: seq![1int, 2int, 0int, 0int, 2int, 1int, 0int, 0int],
            ep: seq![0int, 9int, 2int, 3int, 4int, 8int, 6int, 7int, 1int, 5int, 10int, 11int],
            eo: seq![0int, 1int, 0int, 0int, 0int, 1int, 0int, 0int, 1int, 1int, 0int, 0int],
        }
    } else if axis == 3 {
        CubieSpec {
            cp: seq![0int, 1int, 2int, 3int, 5int, 6int, 7int, 4int],
            co: seq![0int, 0int, 0int, 0int, 0int, 0int, 0int, 0int],
            ep: seq![0int, 1int, 2int, 3int, 5int, 6int, 7int, 4int, 8int, 9int, 10int, 11int],
            eo: seq![0int, 0int, 0int, 0int, 0int, 0int, 0int, 0int, 0int, 0int, 0int, 0int],
        }
    } else if axis == 4 {
        CubieSpec {
            cp: seq![0int, 2int, 6int, 3int, 4int, 1int, 5int, 7int],
            co: seq![0int, 1int, 2int, 0int, 0int, 2int, 1int, 0int],
            ep: seq![0int, 1int, 10int, 3int, 4int, 5int, 9int, 7int, 8int, 2int, 6int, 11int],
            eo: seq![0int, 0int, 0int, 0int, 0int, 0int, 0int, 0int, 0int, 0int, 0int, 0int],
        }
    } else {
        CubieSpec {
            cp: seq![0int, 1int, 3int, 7int, 4int, 5int, 2int, 6int],
            co: seq![0int, 0int, 1int, 2int, 0int, 0int, 2int, 1int],
            ep: seq![0int, 1int, 2int, 11int, 4int, 5int, 6int, 10int, 8int, 9int, 3int, 7int],
            eo: seq![0int, 0int, 0int, 1int, 0int, 0int, 0int, 1int, 0int, 0int, 1int, 1int],
        }
    }
}

/// The state after turning one face a number of quarter turns.
pub open spec fn apply_axis(x: CubieSpec, axis: int, times: nat) -> CubieSpec
    decreases times,
{
    if times == 0 {
        x
    } else {
        CubieSpec::mult(apply_axis(x, axis, (times - 1) as nat), generator_spec(axis))
    }
}

/// The state after one of the eighteen moves, given by its rank.
pub open spec fn apply_move(x: CubieSpec, m: int) -> CubieSpec {
    apply_axis(x, crate::defs::move_axis(m), crate::defs::move_power(m) as nat)
}

/// The state after a whole move sequence, applied left to right.
pub open spec fn apply_moves(x: CubieSpec, ms: Seq<int>) -> CubieSpec
    decreases ms.len(),
{
    if ms.len() == 0 {
        x
    } else {
        apply_moves(apply_move(x, ms[0]), ms.drop_first())
    }
}

/// A cube state at the level of pieces: which piece each slot holds and
/// how it is turned there.
#[derive(Clone, Copy, Debug)]
pub struct CubieCube {
    pub corner_permutation: [Corner; 8],
    pub corner_orientation: [usize; 8],
    pub edge_permutation: [Edge; 12],
    pub edge_orientation: [usize; 12],
}

impl View for CubieCube {
    type V = CubieSpec;

    open spec fn view(&self) -> CubieSpec {
        CubieSpec {
            cp: Seq::new(8, |i: int| corner_index(self.corner_permutation[i])),
            co: Seq::new(8, |i: int| self.corner_orientation[i] as int),
            ep: Seq::new(12, |i: int| edge_index(self.edge_permutation[i])),
            eo: Seq::new(12, |i: int| self.edge_orientation[i] as int),
        }
    }
}

impl CubieCube {
    /// Creates the solved cube.
    pub fn reset() -> (r: CubieCube)
        ensures
            r@ == CubieSpec::solved(),
            r@.wf(),
    {
        let r = CubieCube {
            corner_permutation: [
                Corner::URF,
                Corner::UFL,
                Corner::ULB,
                Corner::UBR,
                Corner::DFR,
                Corner::DLF,
                Corner::DBL,
                Corner::DRB,
            ],
            corner_orientation: [0, 0, 0, 0, 0, 0, 0, 0],
            edge_permutation: [
                Edge::UR,
                Edge::UF,
                Edge::UL,
                Edge::UB,
                Edge::DR,
                Edge::DF,
                Edge::DL,
                Edge::DB,
                Edge::FR,
                Edge::FL,
                Edge::BL,
                Edge::BR,
            ],
            edge_orientation: [0, 0, 0, 0, 0, 0, 0, 0, 0, 0, 0, 0],
        };
        proof {
            assert(r@.cp =~= CubieSpec::solved().cp);
            assert(r@.co =~= CubieSpec::solved().co);
            assert(r@.ep =~= CubieSpec::solved().ep);
            assert(r@.eo =~= CubieSpec::solved().eo);
            assert(r@ =~= CubieSpec::solved());
        }
        r
    }

    /// Builds a cube from prechosen piece arrays.
    pub fn new(
        cp: [Corner; 8],
        co: [usize; 8],
        ep: [Edge; 12],
        eo: [usize; 12],
    ) -> (r: CubieCube)
        ensures
            r.corner_permutation == cp,
            r.corner_orientation == co,
            r.edge_permutation == ep,
            r.edge_orientation == eo,
    {
        CubieCube {
            corner_permutation: cp,
            corner_orientation: co,
            edge_permutation: ep,
            edge_orientation: eo,
        }
    }

    /// Composes the corner part of this cube with the corner part of a.
    pub fn corner_multiply(&mut self, a: CubieCube)
        requires
            old(self)@.ranges_ok(),
            a@.ranges_ok(),
        ensures
            final(self)@.cp == CubieSpec::mult(old(self)@, a@).cp,
            final(self)@.co == CubieSpec::mult(old(self)@, a@).co,
            final(self)@.ep == old(self)@.ep,
            final(self)@.eo == old(self)@.eo,
    {
        let mut cp: [Corner; 8] = self.corner_permutation;
        let mut co: [usize; 8] = self.corner_orientation;
        let mut i: usize = 0;
        while i < 8
            invariant
                i <= 8,
                self == old(self),
                self@.ranges_ok(),
                a@.ranges_ok(),
                forall|j: int|
                    0 <= j < i ==> corner_index(#[trigger] cp@[j])
                        == CubieSpec::mult(self@, a@).cp[j],
                forall|j: int|
                    0 <= j < i ==> #[trigger] co@[j] as int == CubieSpec::mult(self@, a@).co[j],
            decreases 8 - i,
        {
            let idx = corner_to_index(a.corner_permutation[i]);
            proof {
                assert(a@.cp[i as int] == corner_index(a.corner_permutation@[i as int]));
                assert(0 <= a@.cp[i as int] < 8);
                assert(self@.co[idx as int] == self.corner_orientation@[idx as int] as int);
                assert(a@.co[i as int] == a.corner_orientation@[i as int] as int);
            }
            cp[i] = self.corner_permutation[idx];
            co[i] = (self.corner_orientation[idx] + a.corner_orientation[i]) % 3;
            i = i + 1;
        }
        self.corner_permutation = cp;
        self.corner_orientation = co;
        proof {
            assert(self@.cp =~= CubieSpec::mult(old(self)@, a@).cp);
            assert(self@.co =~= CubieSpec::mult(old(self)@, a@).co);
            assert(self@.ep =~= old(self)@.ep);
            assert(self@.eo =~= old(self)@.eo);
        }
    }

    /// Composes the edge part of this cube with the edge part of a.
    pub fn edge_multiply(&mut self, a: CubieCube)
        requires
            old(self)@.ranges_ok(),
            a@.ranges_ok(),
        ensures
            final(self)@.ep == CubieSpec::mult(old(self)@, a@).ep,
            final(self)@.eo == CubieSpec::mult(old(self)@, a@).eo,
            final(self)@.cp == old(self)@.cp,
            final(self)@.co == old(self)@.co,
    {
        let mut ep: [Edge; 12] = self.edge_permutation;
        let mut eo: [usize; 12] = self.edge_orientation;
        let mut i: usize = 0;
        while i < 12
            invariant
                i <= 12,
                self == old(self),
                self@.ranges_ok(),
                a@.ranges_ok(),
                forall|j: int|
                    0 <= j < i ==> edge_index(#[trigger] ep@[j])
                        == CubieSpec::mult(self@, a@).ep[j],
                forall|j: int|
                    0 <= j < i ==> #[trigger] eo@[j] as int == CubieSpec::mult(self@, a@).eo[j],
            decreases 12 - i,
        {
            let idx = edge_to_index(a.edge_permutation[i]);
            proof {
                assert(a@.ep[i as int] == edge_index(a.edge_permutation@[i as int]));
                assert(0 <= a@.ep[i as int] < 12);
                assert(self@.eo[idx as int] == self.edge_orientation@[idx as int] as int);
                assert(a@.eo[i as int] == a.edge_orientation@[i as int] as int);
            }
            ep[i] = self.edge_permutation[idx];
            eo[i] = (self.edge_orientation[idx] + a.edge_orientation[i]) % 2;
            i = i + 1;
        }
        self.edge_permutation = ep;
        self.edge_orientation = eo;
        proof {
            assert(self@.ep =~= CubieSpec::mult(old(self)@, a@).ep);
            assert(self@.eo =~= CubieSpec::mult(old(self)@, a@).eo);
            assert(self@.cp =~= old(self)@.cp);
            assert(self@.co =~= old(self)@.co);
        }
    }

    /// One clockwise turn of the U face, as a cube to multiply by.
    fn gen_u() -> (r: CubieCube)
        ensures
            r@ == generator_spec(0),
            r@.wf(),
    {
        let r = CubieCube {
            corner_permutation: [
                Corner::UBR,
                Corner::URF,
                Corner::UFL,
                Corner::ULB,
                Corner::DFR,
                Corner::DLF,
                Corner::DBL,
                Corner::DRB,
            ],
            corner_orientation: [0, 0, 0, 0, 0, 0, 0, 0],
            edge_permutation: [
                Edge::UB,
                Edge::UR,
                Edge::UF,
                Edge::UL,
                Edge::DR,
                Edge::DF,
                Edge::DL,
                Edge::DB,
                Edge::FR,
                Edge::FL,
                Edge::BL,
                Edge::BR,
            ],
            edge_orientation: [0, 0, 0, 0, 0, 0, 0, 0, 0, 0, 0, 0],
        };
        proof {
            assert(r@.cp =~= generator_spec(0).cp);
            assert(r@.co =~= generator_spec(0).co);
            assert(r@.ep =~= generator_spec(0).ep);
            assert(r@.eo =~= generator_spec(0).eo);
            assert(r@ =~= generator_spec(0));
        }
        r
    }

    /// One clockwise turn of the R face, as a cube to multiply by.
    fn gen_r() -> (r: CubieCube)
        ensures
            r@ == generator_spec(1),
            r@.wf(),
    {
        let r = CubieCube {
            corner_permutation: [
                Corner::DFR,
                Corner::UFL,
                Corner::ULB,
                Corner::URF,
                Corner::DRB,
                Corner::DLF,
                Corner::DBL,
                Corner::UBR,
            ],
            corner_orientation: [2, 0, 0, 1, 1, 0, 0, 2],
            edge_permutation: [
                Edge::FR,
                Edge::UF,
                Edge::UL,
                Edge::UB,
                Edge::BR,
                Edge::DF,
                Edge::DL,
                Edge::DB,
                Edge::DR,
                Edge::FL,
                Edge::BL,
                Edge::UR,
            ],
            edge_orientation: [0, 0, 0, 0, 0, 0, 0, 0, 0, 0, 0, 0],
        };
        proof {
            assert(r@.cp =~= generator_spec(1).cp);
            assert(r@.co =~= generator_spec(1).co);
            assert(r@.ep =~= generator_spec(1).ep);
            assert(r@.eo =~= generator_spec(1).eo);
            assert(r@ =~= generator_spec(1));
        }
        r
    }

    /// One clockwise turn of the F face, as a cube to multiply by.
    fn gen_f() -> (r: CubieCube)
        ensures
            r@ == generator_spec(2),
            r@.wf(),
    {
        let r = CubieCube {
            corner_permutation: [
                Corner::UFL,
                Corner::DLF,
                Corner::ULB,
                Corner::UBR,
                Corner::URF,
                Corner::DFR,
                Corner::DBL,
                Corner::DRB,
            ],
            corner_orientation: [1, 2, 0, 0, 2, 1, 0, 0],
            edge_permutation: [
                Edge::UR,
                Edge::FL,
                Edge::UL,
                Edge::UB,
                Edge::DR,
                Edge::FR,
                Edge::DL,
                Edge::DB,
                Edge::UF,
                Edge::DF,
                Edge::BL,
                Edge::BR,
            ],
            edge_orientation: [0, 1, 0, 0, 0, 1, 0, 0, 1, 1, 0, 0],
        };
        proof {
            assert(r@.cp =~= generator_spec(2).cp);
            assert(r@.co =~= generator_spec(2).co);
            assert(r@.ep =~= generator_spec(2).ep);
            assert(r@.eo =~= generator_spec(2).eo);
            assert(r@ =~= generator_spec(2));
        }
        r
    }

    /// One clockwise turn of the D face, as a cube to multiply by.
    fn gen_d() -> (r: CubieCube)
        ensures
            r@ == generator_spec(3),
            r@.wf(),
    {
        let r = CubieCube {
            corner_permutation: [
                Corner::URF,
                Corner::UFL,
                Corner::ULB,
                Corner::UBR,
                Corner::DLF,
                Corner::DBL,
                Corner::DRB,
                Corner::DFR,
            ],
            corner_orientation: [0, 0, 0, 0, 0, 0, 0, 0],
            edge_permutation: [
                Edge::UR,
                Edge::UF,
                Edge::UL,
                Edge::UB,
                Edge::DF,
                Edge::DL,
                Edge::DB,
                Edge::DR,
                Edge::FR,
                Edge::FL,
                Edge::BL,
                Edge::BR,
            ],
            edge_orientation: [0, 0, 0, 0, 0, 0, 0, 0, 0, 0, 0, 0],
        };
        proof {
            assert(r@.cp =~= generator_spec(3).cp);
            assert(r@.co =~= generator_spec(3).co);
            assert(r@.ep =~= generator_spec(3).ep);
            assert(r@.eo =~= generator_spec(3).eo);
            assert(r@ =~= generator_spec(3));
        }
        r
    }

    /// One clockwise turn of the L face, as a cube to multiply by.
    fn gen_l() -> (r: CubieCube)
        ensures
            r@ == generator_spec(4),
            r@.wf(),
    {
        let r = CubieCube {
            corner_permutation: [
                Corner::URF,
                Corner::ULB,
                Corner::DBL,
                Corner::UBR,
                Corner::DFR,
                Corner::UFL,
                Corner::DLF,
                Corner::DRB,
            ],
            corner_orientation: [0, 1, 2, 0, 0, 2, 1, 0],
            edge_permutation: [
                Edge::UR,
                Edge::UF,
                Edge::BL,
                Edge::UB,
                Edge::DR,
                Edge::DF,
                Edge::FL,
                Edge::DB,
                Edge::FR,
                Edge::UL,
                Edge::DL,
                Edge::BR,
            ],
            edge_orientation: [0, 0, 0, 0, 0, 0, 0, 0, 0, 0, 0, 0],
        };
        proof {
            assert(r@.cp =~= generator_spec(4).cp);
            assert(r@.co =~= generator_spec(4).co);
            assert(r@.ep =~= generator_spec(4).ep);
            assert(r@.eo =~= generator_spec(4).eo);
            assert(r@ =~= generator_spec(4));
        }
        r
    }

    /// One clockwise turn of the B face, as a cube to multiply by.
    fn gen_b() -> (r: CubieCube)
        ensures
            r@ == generator_spec(5),
            r@.wf(),
    {
        let r = CubieCube {
            corner_permutation: [
                Corner::URF,
                Corner::UFL,
                Corner::UBR,
                Corner::DRB,
                Corner::DFR,
                Corner::DLF,
                Corner::ULB,
                Corner::DBL,
            ],
            corner_orientation: [0, 0, 1, 2, 0, 0, 2, 1],
            edge_permutation: [
                Edge::UR,
                Edge::UF,
                Edge::UL,
                Edge::BR,
                Edge::DR,
                Edge::DF,
                Edge::DL,
                Edge::BL,
                Edge::FR,
                Edge::FL,
                Edge::UB,
                Edge::DB,
            ],
            edge_orientation: [0, 0, 0, 1, 0, 0, 0, 1, 0, 0, 1, 1],
        };
        proof {
            assert(r@.cp =~= generator_spec(5).cp);
            assert(r@.co =~= generator_spec(5).co);
            assert(r@.ep =~= generator_spec(5).ep);
            assert(r@.eo =~= generator_spec(5).eo);
            assert(r@ =~= generator_spec(5));
        }
        r
    }

    /// The generator cube for the given axis.
    pub fn generator(axis: usize) -> (r: CubieCube)
        requires
            axis < 6,
        ensures
            r@ == generator_spec(axis as int),
            r@.wf(),
    {
        match axis {
            0 => Self::gen_u(),
            1 => Self::gen_r(),
            2 => Self::gen_f(),
            3 => Self::gen_d(),
            4 => Self::gen_l(),
            _ => Self::gen_b(),
        }
    }

    /// Turns face `movement` (0..6 in the order U, R, F, D, L, B) one
    /// quarter clockwise.
    pub fn movement_u(&mut self, movement: usize)
        requires
            movement < 6,
            old(self)@.ranges_ok(),
        ensures
            final(self)@ == CubieSpec::mult(old(self)@, generator_spec(movement as int)),
            final(self)@.ranges_ok(),
            old(self)@.wf() ==> final(self)@.wf(),
    {
        let g = Self::generator(movement);
        self.multiply(g);
    }

    /// Turns the face showing colour `movement` one quarter clockwise.
    pub fn movement_f(&mut self, movement: Facelets)
        requires
            old(self)@.ranges_ok(),
        ensures
            final(self)@ == CubieSpec::mult(
                old(self)@,
                generator_spec(crate::defs::facelet_index(movement)),
            ),
            final(self)@.ranges_ok(),
    {
        let g = Self::generator(facelet_to_index(movement));
        self.multiply(g);
    }

    /// Applies one of the eighteen moves: one, two or three quarter turns
    /// of one face.
    pub fn movement(&mut self, movement: Moves)
        requires
            old(self)@.ranges_ok(),
        ensures
            final(self)@ == apply_move(old(self)@, move_index(movement)),
            final(self)@.ranges_ok(),
            old(self)@.wf() ==> final(self)@.wf(),
    {
        let idx = move_to_index(movement);
        let axis = idx / 3;
        let power = idx % 3 + 1;
        let g = Self::generator(axis);
        proof {
            assert(apply_axis(old(self)@, axis as int, 0) == old(self)@);
        }
        self.multiply(g);
        proof {
            assert(self@ == apply_axis(old(self)@, axis as int, 1));
        }
        if power >= 2 {
            self.multiply(g);
            proof {
                assert(self@ == apply_axis(old(self)@, axis as int, 2));
            }
        }
        if power == 3 {
            self.multiply(g);
            proof {
                assert(self@ == apply_axis(old(self)@, axis as int, 3));
            }
        }
        proof {
            assert(move_axis(idx as int) == axis as int);
            assert(move_power(idx as int) == power as int);
        }
    }

    /// Composes this cube with a: first this cube's moves, then a's.
    pub fn multiply(&mut self, a: CubieCube)
        requires
            old(self)@.ranges_ok(),
            a@.ranges_ok(),
        ensures
            final(self)@ == CubieSpec::mult(old(self)@, a@),
            final(self)@.ranges_ok(),
            old(self)@.wf() && a@.wf() ==> final(self)@.wf(),
    {
        self.corner_multiply(a);
        self.edge_multiply(a);
        proof {
            assert(self@ =~= CubieSpec::mult(old(self)@, a@));
            lemma_mult_ranges(old(self)@, a@);
            if old(self)@.wf() && a@.wf() {
                lemma_mult_injective(old(self)@, a@);
            }
        }
    }
}

/// The usize entries of a sequence, as mathematical integers.
pub open spec fn int_view(s: Seq<usize>) -> Seq<int> {
    Seq::new(s.len(), |i: int| s[i] as int)
}

/// The corner-twist coordinate: the first seven corner orientations read
/// as a base-3 number (the eighth is fixed by the orientation-sum rule).
pub open spec fn twist_of(s: CubieSpec) -> int {
    s.co[0] * 729 + s.co[1] * 243 + s.co[2] * 81 + s.co[3] * 27 + s.co[4] * 9 + s.co[5] * 3
        + s.co[6]
}

/// The edge-flip coordinate: the first eleven edge orientations read as a
/// base-2 number (the twelfth is fixed by the flip-sum rule).
pub open spec fn flip_of(s: CubieSpec) -> int {
    s.eo[0] * 1024 + s.eo[1] * 512 + s.eo[2] * 256 + s.eo[3] * 128 + s.eo[4] * 64 + s.eo[5] * 32
        + s.eo[6] * 16 + s.eo[7] * 8 + s.eo[8] * 4 + s.eo[9] * 2 + s.eo[10]
}

/// How many of p[0], ..., p[limit-1] exceed p[j].
pub open spec fn count_gt(p: Seq<int>, limit: int, j: int) -> int
    decreases limit,
{
    if limit <= 0 {
        0
    } else {
        count_gt(p, limit - 1, j) + if p[limit - 1] > p[j] {
            1int
        } else {
            0int
        }
    }
}

/// The number of inverted pairs among the first n entries of p.
pub open spec fn inv_count(p: Seq<int>, n: int) -> int
    decreases n,
{
    if n <= 0 {
        0
    } else {
        inv_count(p, n - 1) + count_gt(p, n - 1, n - 1)
    }
}

/// The parity of the corner permutation: the inversion count mod 2.
pub open spec fn corner_parity_of(s: CubieSpec) -> int {
    inv_count(s.cp, 8) % 2
}

/// The parity of the edge permutation: the inversion count mod 2.
pub open spec fn edge_parity_of(s: CubieSpec) -> int {
    inv_count(s.ep, 12) % 2
}

/// The Lehmer rank of the first n entries of p, accumulated by Horner's
/// rule from position j upwards; the full rank is lehmer_from(p, n, 1).
pub open spec fn lehmer_from(p: Seq<int>, n: int, j: int) -> int
    decreases n - j,
{
    if n <= j {
        0
    } else {
        j * (lehmer_from(p, n, j + 1) + count_gt(p, j, j))
    }
}

/// An upper bound for lehmer_from: the rank each digit could at most
/// contribute.
pub open spec fn lehmer_cap(n: int, j: int) -> int
    decreases n - j,
{
    if n <= j {
        0
    } else {
        j * (lehmer_cap(n, j + 1) + j)
    }
}

/// The corner-permutation coordinate: Lehmer rank of the corner
/// permutation.
pub open spec fn corner_of(s: CubieSpec) -> int {
    lehmer_from(s.cp, 8, 1)
}

/// The phase-2 edge-8 coordinate: Lehmer rank of the permutation in the
/// eight non-slice edge slots.
pub open spec fn edge8_of(s: CubieSpec) -> int {
    lehmer_from(s.ep, 8, 1)
}

/// The phase-2 slice-order coordinate: Lehmer rank of the permutation in
/// the four UD-slice slots.
pub open spec fn edge4_of(s: CubieSpec) -> int {
    lehmer_from(s.ep.subrange(8, 12), 4, 1)
}

/// How many of the first j edge slots hold a UD-slice edge.
pub open spec fn slice_count(ep: Seq<int>, j: int) -> int
    decreases j,
{
    if j <= 0 {
        0
    } else {
        slice_count(ep, j - 1) + if ep[j - 1] >= 8 {
            1int
        } else {
            0int
        }
    }
}

/// The UD-slice occupancy rank accumulated over the first j slots: each
/// non-slice slot after the k-th seen slice edge contributes C(slot, k).
pub open spec fn udslice_sum(ep: Seq<int>, j: int) -> int
    decreases j,
{
    if j <= 0 {
        0
    } else {
        udslice_sum(ep, j - 1) + if ep[j - 1] < 8 && slice_count(ep, j - 1) >= 1 {
            binom(j - 1, slice_count(ep, j - 1) - 1)
        } else {
            0int
        }
    }
}

/// The UD-slice coordinate: the rank of the set of slots holding the four
/// slice edges among all 4-subsets of 12 slots.
pub open spec fn udslice_of(s: CubieSpec) -> int {
    udslice_sum(s.ep, 12)
}

/// A count over a prefix never exceeds the prefix length.
proof fn lemma_count_gt_le(p: Seq<int>, limit: int, j: int)
    requires
        limit >= 0,
    ensures
        0 <= count_gt(p, limit, j) <= limit,
    decreases limit,
{
    if limit > 0 {
        lemma_count_gt_le(p, limit - 1, j);
    }
}

/// The Horner rank never exceeds its cap.
proof fn lemma_lehmer_le_cap(p: Seq<int>, n: int, j: int)
    requires
        0 <= j,
    ensures
        0 <= lehmer_from(p, n, j) <= lehmer_cap(n, j),
    decreases n - j,
{
    if j < n {
        lemma_lehmer_le_cap(p, n, j + 1);
        lemma_count_gt_le(p, j, j);
        let l1 = lehmer_from(p, n, j + 1);
        let s = count_gt(p, j, j);
        let c1 = lehmer_cap(n, j + 1);
        assert(j * (l1 + s) <= j * (c1 + j) && 0 <= j * (l1 + s)) by (nonlinear_arith)
            requires
                0 <= j,
                0 <= l1 <= c1,
                0 <= s <= j,
        ;
    }
}

/// Caps only grow as the processed range widens downwards.
proof fn lemma_cap_mono(n: int, j: int)
    requires
        1 <= j,
    ensures
        lehmer_cap(n, j + 1) <= lehmer_cap(n, j),
    decreases n - j,
{
    if j + 1 < n {
        lemma_cap_mono(n, j + 1);
        lemma_cap_nonneg(n, j + 1);
        let c2 = lehmer_cap(n, j + 1);
        assert(c2 <= j * (c2 + j)) by (nonlinear_arith)
            requires
                1 <= j,
                0 <= c2,
        ;
    } else {
        lemma_cap_nonneg(n, j);
    }
}

proof fn lemma_cap_nonneg(n: int, j: int)
    requires
        0 <= j,
    ensures
        lehmer_cap(n, j) >= 0,
    decreases n - j,
{
    if j < n {
        lemma_cap_nonneg(n, j + 1);
        let c1 = lehmer_cap(n, j + 1);
        assert(j * (c1 + j) >= 0) by (nonlinear_arith)
            requires
                0 <= j,
                0 <= c1,
        ;
    }
}

/// Caps stay below the cap of position 1.
proof fn lemma_cap_le_first(n: int, j: int)
    requires
        1 <= j,
    ensures
        lehmer_cap(n, j) <= lehmer_cap(n, 1),
    decreases j,
{
    if j > 1 {
        lemma_cap_le_first(n, j - 1);
        lemma_cap_mono(n, j - 1);
    }
}

/// The concrete cap values: a rank over at most eight entries stays below
/// 8!.
proof fn lemma_cap_values()
    ensures
        lehmer_cap(8, 1) == 40319,
        lehmer_cap(4, 1) == 23,
        lehmer_cap(12, 1) == 479001599,
        forall|n: int| 1 <= n <= 12 ==> #[trigger] lehmer_cap(n, 1) <= 479001599,
{
    assert(lehmer_cap(12, 12) == 0);
    assert(lehmer_cap(12, 11) == 121);
    assert(lehmer_cap(12, 10) == 1310);
    assert(lehmer_cap(12, 9) == 11871);
    assert(lehmer_cap(12, 8) == 95032);
    assert(lehmer_cap(12, 7) == 665273);
    assert(lehmer_cap(12, 6) == 3991674);
    assert(lehmer_cap(12, 5) == 19958395);
    assert(lehmer_cap(12, 4) == 79833596);
    assert(lehmer_cap(12, 3) == 239500797);
    assert(lehmer_cap(12, 2) == 479001598);
    assert(lehmer_cap(12, 1) == 479001599);
    assert(lehmer_cap(11, 11) == 0);
    assert(lehmer_cap(11, 10) == 100);
    assert(lehmer_cap(11, 9) == 981);
    assert(lehmer_cap(11, 8) == 7912);
    assert(lehmer_cap(11, 7) == 55433);
    assert(lehmer_cap(11, 6) == 332634);
    assert(lehmer_cap(11, 5) == 1663195);
    assert(lehmer_cap(11, 4) == 6652796);
    assert(lehmer_cap(11, 3) == 19958397);
    assert(lehmer_cap(11, 2) == 39916798);
    assert(lehmer_cap(11, 1) == 39916799);
    assert(lehmer_cap(10, 10) == 0);
    assert(lehmer_cap(10, 9) == 81);
    assert(lehmer_cap(10, 8) == 712);
    assert(lehmer_cap(10, 7) == 5033);
    assert(lehmer_cap(10, 6) == 30234);
    assert(lehmer_cap(10, 5) == 151195);
    assert(lehmer_cap(10, 4) == 604796);
    assert(lehmer_cap(10, 3) == 1814397);
    assert(lehmer_cap(10, 2) == 3628798);
    assert(lehmer_cap(10, 1) == 3628799);
    assert(lehmer_cap(9, 9) == 0);
    assert(lehmer_cap(9, 8) == 64);
    assert(lehmer_cap(9, 7) == 497);
    assert(lehmer_cap(9, 6) == 3018);
    assert(lehmer_cap(9, 5) == 15115);
    assert(lehmer_cap(9, 4) == 60476);
    assert(lehmer_cap(9, 3) == 181437);
    assert(lehmer_cap(9, 2) == 362878);
    assert(lehmer_cap(9, 1) == 362879);
    assert(lehmer_cap(8, 8) == 0);
    assert(lehmer_cap(8, 7) == 49);
    assert(lehmer_cap(8, 6) == 330);
    assert(lehmer_cap(8, 5) == 1675);
    assert(lehmer_cap(8, 4) == 6716);
    assert(lehmer_cap(8, 3) == 20157);
    assert(lehmer_cap(8, 2) == 40318);
    assert(lehmer_cap(8, 1) == 40319);
    assert(lehmer_cap(7, 7) == 0);
    assert(lehmer_cap(7, 6) == 36);
    assert(lehmer_cap(7, 5) == 205);
    assert(lehmer_cap(7, 4) == 836);
    assert(lehmer_cap(7, 3) == 2517);
    assert(lehmer_cap(7, 2) == 5038);
    assert(lehmer_cap(7, 1) == 5039);
    assert(lehmer_cap(6, 6) == 0);
    assert(lehmer_cap(6, 5) == 25);
    assert(lehmer_cap(6, 4) == 116);
    assert(lehmer_cap(6, 3) == 357);
    assert(lehmer_cap(6, 2) == 718);
    assert(lehmer_cap(6, 1) == 719);
    assert(lehmer_cap(5, 5) == 0);
    assert(lehmer_cap(5, 4) == 16);
    assert(lehmer_cap(5, 3) == 57);
    assert(lehmer_cap(5, 2) == 118);
    assert(lehmer_cap(5, 1) == 119);
    assert(lehmer_cap(4, 4) == 0);
    assert(lehmer_cap(4, 3) == 9);
    assert(lehmer_cap(4, 2) == 22);
    assert(lehmer_cap(4, 1) == 23);
    assert(lehmer_cap(3, 3) == 0);
    assert(lehmer_cap(3, 2) == 4);
    assert(lehmer_cap(3, 1) == 5);
    assert(lehmer_cap(2, 2) == 0);
    assert(lehmer_cap(2, 1) == 1);
    assert(lehmer_cap(1, 1) == 0);
}

/// Computes the Lehmer rank of the values in p by Horner's rule.
pub fn lehmer_rank(p: &Vec<usize>) -> (r: usize)
    requires
        1 <= p@.len() <= 12,
    ensures
        r == lehmer_from(int_view(p@), p@.len() as int, 1),
        r <= 479001599,
{
    let ghost q = int_view(p@);
    let n = p.len();
    proof {
        lemma_cap_values();
    }
    let mut c: usize = 0;
    let mut j: usize = n - 1;
    while j >= 1
        invariant
            j <= n - 1,
            1 <= n <= 12,
            n == p@.len(),
            q == int_view(p@),
            c == lehmer_from(q, n as int, j + 1),
            c <= lehmer_cap(n as int, j + 1),
        decreases j,
    {
        let mut s: usize = 0;
        let mut i: usize = 0;
        while i < j
            invariant
                i <= j,
                j < n == p@.len(),
                q == int_view(p@),
                s == count_gt(q, i as int, j as int),
                s <= i,
            decreases j - i,
        {
            if p[i] > p[j] {
                s = s + 1;
            }
            i = i + 1;
        }
        proof {
            lemma_cap_values();
            lemma_cap_le_first(n as int, j as int);
            lemma_cap_mono(n as int, j as int);
            lemma_cap_nonneg(n as int, j + 1);
            assert(lehmer_from(q, n as int, j as int) == j * (lehmer_from(q, n as int, j + 1)
                + count_gt(q, j as int, j as int)));
            let c1 = lehmer_cap(n as int, j + 1);
            assert(j * (c as int + s as int) <= j * (c1 + j) && 0 <= j * (c as int + s as int))
                by (nonlinear_arith)
                requires
                    1 <= j,
                    0 <= c as int <= c1,
                    0 <= s <= j,
            ;
            assert(j * (c1 + j) == lehmer_cap(n as int, j as int));
        }
        c = j * (c + s);
        j = j - 1;
    }
    proof {
        lemma_cap_values();
        lemma_cap_le_first(n as int, 1);
    }
    c
}

impl CubieCube {
    /// The corner-twist coordinate, between 0 and 2186.
    pub fn twist(self) -> (r: usize)
        requires
            self@.ranges_ok(),
        ensures
            r == twist_of(self@),
            r < 2187,
    {
        proof {
            assert forall|i: int| 0 <= i < 8 implies self.corner_orientation@[i] < 3 by {
                assert(self@.co[i] == self.corner_orientation@[i] as int);
            }
        }
        self.corner_orientation[0] * 729 + self.corner_orientation[1] * 243
            + self.corner_orientation[2] * 81 + self.corner_orientation[3] * 27
            + self.corner_orientation[4] * 9 + self.corner_orientation[5] * 3
            + self.corner_orientation[6]
    }

    /// The edge-flip coordinate, between 0 and 2047.
    pub fn flip(self) -> (r: usize)
        requires
            self@.ranges_ok(),
        ensures
            r == flip_of(self@),
            r < 2048,
    {
        proof {
            assert forall|i: int| 0 <= i < 12 implies self.edge_orientation@[i] < 2 by {
                assert(self@.eo[i] == self.edge_orientation@[i] as int);
            }
        }
        self.edge_orientation[0] * 1024 + self.edge_orientation[1] * 512
            + self.edge_orientation[2] * 256 + self.edge_orientation[3] * 128
            + self.edge_orientation[4] * 64 + self.edge_orientation[5] * 32
            + self.edge_orientation[6] * 16 + self.edge_orientation[7] * 8
            + self.edge_orientation[8] * 4 + self.edge_orientation[9] * 2
            + self.edge_orientation[10]
    }

    /// The corner-permutation coordinate, between 0 and 40319.
    pub fn corner(self) -> (r: usize)
        ensures
            r == corner_of(self@),
            r < 40320,
    {
        let mut p: Vec<usize> = Vec::new();
        let mut i: usize = 0;
        while i < 8
            invariant
                i <= 8,
                p@.len() == i,
                forall|k: int| 0 <= k < i ==> p@[k] as int == self@.cp[k],
            decreases 8 - i,
        {
            p.push(corner_to_index(self.corner_permutation[i]));
            i = i + 1;
        }
        proof {
            assert(int_view(p@) =~= self@.cp);
            lemma_lehmer_le_cap(int_view(p@), 8, 1);
            lemma_cap_values();
        }
        lehmer_rank(&p)
    }

    /// The phase-2 edge-8 coordinate: the rank of the permutation held by
    /// the eight non-slice slots, between 0 and 40319.
    pub fn edge8(self) -> (r: usize)
        ensures
            r == edge8_of(self@),
            r < 40320,
    {
        let mut p: Vec<usize> = Vec::new();
        let mut i: usize = 0;
        while i < 8
            invariant
                i <= 8,
                p@.len() == i,
                forall|k: int| 0 <= k < i ==> p@[k] as int == self@.ep[k],
            decreases 8 - i,
        {
            p.push(edge_to_index(self.edge_permutation[i]));
            i = i + 1;
        }
        proof {
            assert(int_view(p@) =~= self@.ep.subrange(0, 8));
            lemma_lehmer_prefix(self@.ep, int_view(p@), 8, 1);
            lemma_lehmer_le_cap(int_view(p@), 8, 1);
            lemma_cap_values();
        }
        lehmer_rank(&p)
    }

    /// The phase-2 slice-order coordinate: the rank of the permutation
    /// held by the four UD-slice slots, between 0 and 23.
    pub fn edge4(self) -> (r: usize)
        ensures
            r == edge4_of(self@),
            r < 24,
    {
        let mut p: Vec<usize> = Vec::new();
        let mut i: usize = 8;
        while i < 12
            invariant
                8 <= i <= 12,
                p@.len() == i - 8,
                forall|k: int| 0 <= k < i - 8 ==> p@[k] as int == self@.ep[k + 8],
            decreases 12 - i,
        {
            p.push(edge_to_index(self.edge_permutation[i]));
            i = i + 1;
        }
        proof {
            assert(int_view(p@) =~= self@.ep.subrange(8, 12));
            lemma_cap_values();
        }
        let r = lehmer_rank(&p);
        proof {
            lemma_lehmer_le_cap(int_view(p@), 4, 1);
        }
        r
    }
}

/// How often value v occurs among the first j entries of p.
pub open spec fn occ(p: Seq<int>, v: int, j: int) -> int
    decreases j,
{
    if j <= 0 {
        0
    } else {
        occ(p, v, j - 1) + if p[j - 1] == v {
            1int
        } else {
            0int
        }
    }
}

proof fn lemma_occ_pos_exists(p: Seq<int>, v: int, j: int)
    requires
        occ(p, v, j) >= 1,
    ensures
        exists|i: int| 0 <= i < j && p[i] == v,
    decreases j,
{
    if j > 0 && p[j - 1] != v {
        lemma_occ_pos_exists(p, v, j - 1);
    }
}

proof fn lemma_occ_le_1(p: Seq<int>, v: int, j: int, len: int)
    requires
        0 <= j <= len,
        forall|i1: int, i2: int| 0 <= i1 < len && 0 <= i2 < len && i1 != i2 ==> p[i1] != p[i2],
    ensures
        occ(p, v, j) <= 1,
    decreases j,
{
    if j > 0 {
        lemma_occ_le_1(p, v, j - 1, len);
        if p[j - 1] == v && occ(p, v, j - 1) >= 1 {
            lemma_occ_pos_exists(p, v, j - 1);
        }
    }
}

proof fn lemma_occ_total(p: Seq<int>, j: int)
    requires
        j >= 0,
        forall|i: int| 0 <= i < j ==> 0 <= #[trigger] p[i] < 12,
    ensures
        occ(p, 0, j) + occ(p, 1, j) + occ(p, 2, j) + occ(p, 3, j) + occ(p, 4, j) + occ(p, 5, j)
            + occ(p, 6, j) + occ(p, 7, j) + occ(p, 8, j) + occ(p, 9, j) + occ(p, 10, j)
            + occ(p, 11, j) == j,
    decreases j,
{
    if j > 0 {
        lemma_occ_total(p, j - 1);
    }
}

proof fn lemma_slice_count_occ(p: Seq<int>, j: int)
    requires
        j >= 0,
        forall|i: int| 0 <= i < j ==> 0 <= #[trigger] p[i] < 12,
    ensures
        slice_count(p, j) == occ(p, 8, j) + occ(p, 9, j) + occ(p, 10, j) + occ(p, 11, j),
    decreases j,
{
    if j > 0 {
        lemma_slice_count_occ(p, j - 1);
    }
}

/// The sum of all corner orientations.
pub open spec fn co_sum(s: CubieSpec) -> int {
    s.co[0] + s.co[1] + s.co[2] + s.co[3] + s.co[4] + s.co[5] + s.co[6] + s.co[7]
}

/// The sum of all edge orientations.
pub open spec fn eo_sum(s: CubieSpec) -> int {
    s.eo[0] + s.eo[1] + s.eo[2] + s.eo[3] + s.eo[4] + s.eo[5] + s.eo[6] + s.eo[7] + s.eo[8]
        + s.eo[9] + s.eo[10] + s.eo[11]
}

/// Every corner piece occupies some slot.
pub open spec fn corners_complete(s: CubieSpec) -> bool {
    forall|v: int| 0 <= v < 8 ==> #[trigger] occ(s.cp, v, 8) >= 1
}

/// Every edge piece occupies some slot.
pub open spec fn edges_complete(s: CubieSpec) -> bool {
    forall|v: int| 0 <= v < 12 ==> #[trigger] occ(s.ep, v, 12) >= 1
}

/// A state that a physical cube can be in: all pieces present, both
/// orientation sums balanced, and corner parity matching edge parity.
pub open spec fn solvable(s: CubieSpec) -> bool {
    &&& corners_complete(s)
    &&& edges_complete(s)
    &&& co_sum(s) % 3 == 0
    &&& eo_sum(s) % 2 == 0
    &&& corner_parity_of(s) == edge_parity_of(s)
}

proof fn lemma_occ_nonneg(p: Seq<int>, v: int, j: int)
    ensures
        occ(p, v, j) >= 0,
        j >= 0 ==> occ(p, v, j) <= j,
    decreases j,
{
    if j > 0 {
        lemma_occ_nonneg(p, v, j - 1);
    }
}

/// A state built as the inverse of a well-formed cube really is its
/// two-sided compositional inverse.
proof fn lemma_inverse_props(a: CubieSpec, b: CubieSpec)
    requires
        a.wf(),
        b.cp.len() == 8,
        b.co.len() == 8,
        b.ep.len() == 12,
        b.eo.len() == 12,
        forall|j: int| 0 <= j < 8 ==> b.cp[#[trigger] a.cp[j]] == j,
        forall|j: int| 0 <= j < 12 ==> b.ep[#[trigger] a.ep[j]] == j,
        forall|j: int| 0 <= j < 8 ==> 0 <= #[trigger] b.cp[j] < 8,
        forall|j: int| 0 <= j < 12 ==> 0 <= #[trigger] b.ep[j] < 12,
        forall|j: int| 0 <= j < 8 ==> #[trigger] b.co[j] == (3 - a.co[b.cp[j]]) % 3,
        forall|j: int| 0 <= j < 12 ==> #[trigger] b.eo[j] == (2 - a.eo[b.ep[j]]) % 2,
    ensures
        CubieSpec::mult(b, a) == CubieSpec::solved(),
        CubieSpec::mult(a, b) == CubieSpec::solved(),
        b.wf(),
{
    lemma_wf_surjective(a);
    assert forall|i: int| 0 <= i < 8 implies a.cp[b.cp[i]] == i by {
        assert(occ(a.cp, i, 8) >= 1);
        lemma_occ_pos_exists(a.cp, i, 8);
        let j = choose|j: int| 0 <= j < 8 && a.cp[j] == i;
        assert(b.cp[a.cp[j]] == j);
    }
    assert forall|i: int| 0 <= i < 12 implies a.ep[b.ep[i]] == i by {
        assert(occ(a.ep, i, 12) >= 1);
        lemma_occ_pos_exists(a.ep, i, 12);
        let j = choose|j: int| 0 <= j < 12 && a.ep[j] == i;
        assert(b.ep[a.ep[j]] == j);
    }
    assert(CubieSpec::mult(b, a).cp =~= CubieSpec::solved().cp);
    assert forall|i: int| 0 <= i < 8 implies CubieSpec::mult(b, a).co[i] == 0 by {
        assert(b.co[a.cp[i]] == (3 - a.co[b.cp[a.cp[i]]]) % 3);
        assert(b.cp[a.cp[i]] == i);
    }
    assert(CubieSpec::mult(b, a).co =~= CubieSpec::solved().co);
    assert(CubieSpec::mult(b, a).ep =~= CubieSpec::solved().ep);
    assert forall|i: int| 0 <= i < 12 implies CubieSpec::mult(b, a).eo[i] == 0 by {
        assert(b.eo[a.ep[i]] == (2 - a.eo[b.ep[a.ep[i]]]) % 2);
        assert(b.ep[a.ep[i]] == i);
    }
    assert(CubieSpec::mult(b, a).eo =~= CubieSpec::solved().eo);
    assert(CubieSpec::mult(b, a) =~= CubieSpec::solved());
    assert(CubieSpec::mult(a, b).cp =~= CubieSpec::solved().cp);
    assert forall|i: int| 0 <= i < 8 implies CubieSpec::mult(a, b).co[i] == 0 by {
        assert(b.co[i] == (3 - a.co[b.cp[i]]) % 3);
    }
    assert(CubieSpec::mult(a, b).co =~= CubieSpec::solved().co);
    assert(CubieSpec::mult(a, b).ep =~= CubieSpec::solved().ep);
    assert forall|i: int| 0 <= i < 12 implies CubieSpec::mult(a, b).eo[i] == 0 by {
        assert(b.eo[i] == (2 - a.eo[b.ep[i]]) % 2);
    }
    assert(CubieSpec::mult(a, b).eo =~= CubieSpec::solved().eo);
    assert(CubieSpec::mult(a, b) =~= CubieSpec::solved());
    assert forall|i1: int, i2: int|
        0 <= i1 < 8 && 0 <= i2 < 8 && i1 != i2 implies b.cp[i1] != b.cp[i2] by {
        assert(a.cp[b.cp[i1]] == i1);
        assert(a.cp[b.cp[i2]] == i2);
    }
    assert forall|i1: int, i2: int|
        0 <= i1 < 12 && 0 <= i2 < 12 && i1 != i2 implies b.ep[i1] != b.ep[i2] by {
        assert(a.ep[b.ep[i1]] == i1);
        assert(a.ep[b.ep[i2]] == i2);
    }
}

proof fn lemma_occ_total8(p: Seq<int>, j: int)
    requires
        j >= 0,
        forall|i: int| 0 <= i < j ==> 0 <= #[trigger] p[i] < 8,
    ensures
        occ(p, 0, j) + occ(p, 1, j) + occ(p, 2, j) + occ(p, 3, j) + occ(p, 4, j) + occ(p, 5, j)
            + occ(p, 6, j) + occ(p, 7, j) == j,
    decreases j,
{
    if j > 0 {
        lemma_occ_total8(p, j - 1);
    }
}

proof fn lemma_exists_occ_pos(p: Seq<int>, v: int, i: int, j: int)
    requires
        0 <= i < j,
        p[i] == v,
    ensures
        occ(p, v, j) >= 1,
    decreases j,
{
    lemma_occ_nonneg(p, v, j - 1);
    if i < j - 1 {
        lemma_exists_occ_pos(p, v, i, j - 1);
    }
}

/// In a well-formed cube every piece can be found: the slot maps are onto
/// as well as one to one.
pub proof fn lemma_wf_surjective(s: CubieSpec)
    requires
        s.wf(),
    ensures
        forall|v: int| 0 <= v < 8 ==> #[trigger] occ(s.cp, v, 8) >= 1,
        forall|v: int| 0 <= v < 12 ==> #[trigger] occ(s.ep, v, 12) >= 1,
{
    lemma_occ_total8(s.cp, 8);
    lemma_occ_total(s.ep, 12);
    assert forall|v: int| 0 <= v < 8 implies #[trigger] occ(s.cp, v, 8) >= 1 by {
        assert forall|w: int| 0 <= w < 8 implies occ(s.cp, w, 8) <= 1 by {
            lemma_occ_le_1(s.cp, w, 8, 8);
        }
    }
    assert forall|v: int| 0 <= v < 12 implies #[trigger] occ(s.ep, v, 12) >= 1 by {
        assert forall|w: int| 0 <= w < 12 implies occ(s.ep, w, 12) <= 1 by {
            lemma_occ_le_1(s.ep, w, 12, 12);
        }
    }
}

/// A well-formed cube holds exactly four UD-slice edges: every piece sits
/// in exactly one slot.
pub proof fn lemma_wf_slice_count(s: CubieSpec)
    requires
        s.wf(),
    ensures
        slice_count(s.ep, 12) == 4,
{
    lemma_occ_total(s.ep, 12);
    lemma_slice_count_occ(s.ep, 12);
    assert forall|v: int| 0 <= v < 12 implies occ(s.ep, v, 12) <= 1 by {
        lemma_occ_le_1(s.ep, v, 12, 12);
    }
}

/// The values of Pascal's triangle needed for the UD-slice rank bound.
proof fn lemma_binom_rows()
    ensures
        binom(12, 4) == 495,
        binom(11, 3) == 165,
{
    assert(binom(0, 0) == 1);
    assert(binom(1, 0) == 1);
    assert(binom(2, 0) == 1);
    assert(binom(3, 0) == 1);
    assert(binom(4, 0) == 1);
    assert(binom(5, 0) == 1);
    assert(binom(6, 0) == 1);
    assert(binom(7, 0) == 1);
    assert(binom(8, 0) == 1);
    assert(binom(9, 0) == 1);
    assert(binom(10, 0) == 1);
    assert(binom(11, 0) == 1);
    assert(binom(0, 1) == 0);
    assert(binom(1, 1) == 1);
    assert(binom(2, 1) == 2);
    assert(binom(3, 1) == 3);
    assert(binom(4, 1) == 4);
    assert(binom(5, 1) == 5);
    assert(binom(6, 1) == 6);
    assert(binom(7, 1) == 7);
    assert(binom(8, 1) == 8);
    assert(binom(9, 1) == 9);
    assert(binom(10, 1) == 10);
    assert(binom(11, 1) == 11);
    assert(binom(12, 1) == 12);
    assert(binom(1, 2) == 0);
    assert(binom(2, 2) == 1);
    assert(binom(3, 2) == 3);
    assert(binom(4, 2) == 6);
    assert(binom(5, 2) == 10);
    assert(binom(6, 2) == 15);
    assert(binom(7, 2) == 21);
    assert(binom(8, 2) == 28);
    assert(binom(9, 2) == 36);
    assert(binom(10, 2) == 45);
    assert(binom(11, 2) == 55);
    assert(binom(12, 2) == 66);
    assert(binom(1, 3) == 0);
    assert(binom(2, 3) == 0);
    assert(binom(3, 3) == 1);
    assert(binom(4, 3) == 4);
    assert(binom(5, 3) == 10);
    assert(binom(6, 3) == 20);
    assert(binom(7, 3) == 35);
    assert(binom(8, 3) == 56);
    assert(binom(9, 3) == 84);
    assert(binom(10, 3) == 120);
    assert(binom(11, 3) == 165);
    assert(binom(12, 3) == 220);
    assert(binom(1, 4) == 0);
    assert(binom(2, 4) == 0);
    assert(binom(3, 4) == 0);
    assert(binom(4, 4) == 1);
    assert(binom(5, 4) == 5);
    assert(binom(6, 4) == 15);
    assert(binom(7, 4) == 35);
    assert(binom(8, 4) == 70);
    assert(binom(9, 4) == 126);
    assert(binom(10, 4) == 210);
    assert(binom(11, 4) == 330);
    assert(binom(12, 4) == 495);
}

impl CubieCube {
    /// The UD-slice coordinate, between 0 and 494 on a well-formed cube.
    pub fn udslice(self) -> (r: usize)
        requires
            self@.wf(),
        ensures
            r == udslice_of(self@),
            r < 495,
    {
        let ghost ep = self@.ep;
        let mut seen: usize = 0;
        let mut acc: usize = 0;
        let mut j: usize = 0;
        while j < 12
            invariant
                j <= 12,
                self@.wf(),
                ep == self@.ep,
                seen == slice_count(ep, j as int),
                acc == udslice_sum(ep, j as int),
                acc < binom(j as int, slice_count(ep, j as int)),
            decreases 12 - j,
        {
            let v = edge_to_index(self.edge_permutation[j]);
            proof {
                assert(self@.ep[j as int] == edge_index(self.edge_permutation@[j as int]));
                crate::utility::lemma_binom_nonneg(j as int, seen as int + 1);
                crate::utility::lemma_binom_nonneg(j as int, seen as int);
                crate::utility::lemma_binom_nonneg(j as int, seen as int - 1);
            }
            if v >= 8 {
                seen = seen + 1;
            } else if seen >= 1 {
                let b = crate::utility::binomial(j as i64, seen as i64 - 1);
                proof {
                    crate::utility::lemma_binom_le_2048(j as int, seen as int - 1);
                    crate::utility::lemma_binom_le_2048(j as int, seen as int);
                }
                acc = acc + (b as usize);
            }
            j = j + 1;
        }
        proof {
            lemma_wf_slice_count(self@);
            lemma_binom_rows();
        }
        acc
    }

    /// The parity of the corner permutation: 0 for even, 1 for odd. Equal
    /// corner and edge parity is what makes a cube solvable.
    pub fn corner_parity(self) -> (r: usize)
        ensures
            r == corner_parity_of(self@),
            r < 2,
    {
        let ghost p = self@.cp;
        proof {
            assert(inv_count(p, 0) == 0);
            assert(count_gt(p, 0, 0) == 0);
        }
        let mut s: usize = 0;
        let mut j: usize = 1;
        while j < 8
            invariant
                1 <= j <= 8,
                p == self@.cp,
                s == inv_count(p, j as int),
                s <= 12 * j,
            decreases 8 - j,
        {
            let mut i: usize = 0;
            let mut c: usize = 0;
            while i < j
                invariant
                    i <= j < 8,
                    p == self@.cp,
                    c == count_gt(p, i as int, j as int),
                    c <= i,
                decreases j - i,
            {
                if corner_to_index(self.corner_permutation[i])
                    > corner_to_index(self.corner_permutation[j]) {
                    c = c + 1;
                }
                i = i + 1;
            }
            s = s + c;
            j = j + 1;
        }
        s % 2
    }

    /// The parity of the edge permutation: 0 for even, 1 for odd.
    pub fn edge_parity(self) -> (r: usize)
        ensures
            r == edge_parity_of(self@),
            r < 2,
    {
        let ghost p = self@.ep;
        proof {
            assert(inv_count(p, 0) == 0);
            assert(count_gt(p, 0, 0) == 0);
        }
        let mut s: usize = 0;
        let mut j: usize = 1;
        while j < 12
            invariant
                1 <= j <= 12,
                p == self@.ep,
                s == inv_count(p, j as int),
                s <= 12 * j,
            decreases 12 - j,
        {
            let mut i: usize = 0;
            let mut c: usize = 0;
            while i < j
                invariant
                    i <= j < 12,
                    p == self@.ep,
                    c == count_gt(p, i as int, j as int),
                    c <= i,
                decreases j - i,
            {
                if edge_to_index(self.edge_permutation[i])
                    > edge_to_index(self.edge_permutation[j]) {
                    c = c + 1;
                }
                i = i + 1;
            }
            s = s + c;
            j = j + 1;
        }
        s % 2
    }

    /// Sets the corner orientations to the state encoding twist t: the
    /// first seven are t's base-3 digits, the eighth balances the sum.
    pub fn set_twist(&mut self, twist: usize)
        requires
            twist < 2187,
        ensures
            final(self)@.co == twist_digits(twist as int),
            final(self)@.cp == old(self)@.cp,
            final(self)@.ep == old(self)@.ep,
            final(self)@.eo == old(self)@.eo,
    {
        let d0 = twist / 729 % 3;
        let d1 = twist / 243 % 3;
        let d2 = twist / 81 % 3;
        let d3 = twist / 27 % 3;
        let d4 = twist / 9 % 3;
        let d5 = twist / 3 % 3;
        let d6 = twist % 3;
        let last = (3 - (d0 + d1 + d2 + d3 + d4 + d5 + d6) % 3) % 3;
        self.corner_orientation = [d0, d1, d2, d3, d4, d5, d6, last];
        proof {
            assert(self@.co =~= twist_digits(twist as int));
            assert(self@.cp =~= old(self)@.cp);
            assert(self@.ep =~= old(self)@.ep);
            assert(self@.eo =~= old(self)@.eo);
        }
    }

    /// Sets the edge orientations to the state encoding flip f: the first
    /// eleven are f's base-2 digits, the twelfth balances the sum.
    pub fn set_flip(&mut self, flip: usize)
        requires
            flip < 2048,
        ensures
            final(self)@.eo == flip_digits(flip as int),
            final(self)@.cp == old(self)@.cp,
            final(self)@.co == old(self)@.co,
            final(self)@.ep == old(self)@.ep,
    {
        let d0 = flip / 1024 % 2;
        let d1 = flip / 512 % 2;
        let d2 = flip / 256 % 2;
        let d3 = flip / 128 % 2;
        let d4 = flip / 64 % 2;
        let d5 = flip / 32 % 2;
        let d6 = flip / 16 % 2;
        let d7 = flip / 8 % 2;
        let d8 = flip / 4 % 2;
        let d9 = flip / 2 % 2;
        let d10 = flip % 2;
        let last = (2 - (d0 + d1 + d2 + d3 + d4 + d5 + d6 + d7 + d8 + d9 + d10) % 2) % 2;
        self.edge_orientation = [d0, d1, d2, d3, d4, d5, d6, d7, d8, d9, d10, last];
        proof {
            assert(self@.eo =~= flip_digits(flip as int));
            assert(self@.cp =~= old(self)@.cp);
            assert(self@.co =~= old(self)@.co);
            assert(self@.ep =~= old(self)@.ep);
        }
    }

    /// Sets the corner permutation to the one whose Lehmer rank data is
    /// the factorial-number-system form of c.
    pub fn set_corner(&mut self, c: usize)
        requires
            c < 40320,
        ensures
            forall|j: int|
                0 <= j < 8 ==> final(self)@.cp[j] == decode_entry(c as int, 8, j),
            forall|j1: int, j2: int|
                0 <= j1 < 8 && 0 <= j2 < 8 && j1 != j2 ==> final(self)@.cp[j1]
                    != final(self)@.cp[j2],
            forall|j: int| 0 <= j < 8 ==> 0 <= #[trigger] final(self)@.cp[j] < 8,
            final(self)@.co == old(self)@.co,
            final(self)@.ep == old(self)@.ep,
            final(self)@.eo == old(self)@.eo,
    {
        let perm = decode_perm(c, 8);
        let mut cp = self.corner_permutation;
        let mut i: usize = 0;
        while i < 8
            invariant
                i <= 8,
                perm@.len() == 8,
                forall|j: int| 0 <= j < 8 ==> #[trigger] perm@[j] < 8,
                forall|j: int| 0 <= j < i ==> corner_index(#[trigger] cp@[j]) == perm@[j] as int,
            decreases 8 - i,
        {
            cp[i] = corner_from_index(perm[i]);
            i = i + 1;
        }
        self.corner_permutation = cp;
        proof {
            assert(self@.co =~= old(self)@.co);
            assert(self@.ep =~= old(self)@.ep);
            assert(self@.eo =~= old(self)@.eo);
        }
    }

    /// Sets the permutation in the eight non-slice edge slots to the one
    /// whose Lehmer rank data is the factorial-number-system form of e;
    /// the four slice slots keep their edges.
    pub fn set_edge8(&mut self, e: usize)
        requires
            e < 40320,
        ensures
            forall|j: int|
                0 <= j < 8 ==> final(self)@.ep[j] == decode_entry(e as int, 8, j),
            forall|j: int| 8 <= j < 12 ==> final(self)@.ep[j] == old(self)@.ep[j],
            forall|j1: int, j2: int|
                0 <= j1 < 8 && 0 <= j2 < 8 && j1 != j2 ==> final(self)@.ep[j1]
                    != final(self)@.ep[j2],
            forall|j: int| 0 <= j < 8 ==> 0 <= #[trigger] final(self)@.ep[j] < 8,
            final(self)@.cp == old(self)@.cp,
            final(self)@.co == old(self)@.co,
            final(self)@.eo == old(self)@.eo,
    {
        let perm = decode_perm(e, 8);
        let mut ep = self.edge_permutation;
        let mut i: usize = 0;
        while i < 8
            invariant
                i <= 8,
                perm@.len() == 8,
                forall|j: int| 0 <= j < 8 ==> #[trigger] perm@[j] < 8,
                forall|j: int| 0 <= j < i ==> edge_index(#[trigger] ep@[j]) == perm@[j] as int,
                forall|j: int| 8 <= j < 12 ==> ep@[j] == self.edge_permutation@[j],
            decreases 8 - i,
        {
            ep[i] = edge_from_index(perm[i]);
            i = i + 1;
        }
        self.edge_permutation = ep;
        proof {
            assert(self@.cp =~= old(self)@.cp);
            assert(self@.co =~= old(self)@.co);
            assert(self@.eo =~= old(self)@.eo);
        }
    }

    /// Sets the order of the four edges in the UD-slice slots to the one
    /// whose Lehmer rank data is the factorial-number-system form of e;
    /// the eight other slots keep their edges.
    pub fn set_edge4(&mut self, e: usize)
        requires
            e < 24,
        ensures
            forall|j: int|
                8 <= j < 12 ==> final(self)@.ep[j] == 8 + decode_entry(e as int, 4, j - 8),
            forall|j: int| 0 <= j < 8 ==> final(self)@.ep[j] == old(self)@.ep[j],
            final(self)@.cp == old(self)@.cp,
            final(self)@.co == old(self)@.co,
            final(self)@.eo == old(self)@.eo,
    {
        let perm = decode_perm(e, 4);
        let mut ep = self.edge_permutation;
        let mut i: usize = 0;
        while i < 4
            invariant
                i <= 4,
                perm@.len() == 4,
                forall|j: int| 0 <= j < 4 ==> #[trigger] perm@[j] < 4,
                forall|j: int|
                    0 <= j < i ==> edge_index(#[trigger] ep@[j + 8]) == 8 + perm@[j] as int,
                forall|j: int| 0 <= j < 8 ==> ep@[j] == self.edge_permutation@[j],
            decreases 4 - i,
        {
            ep[i + 8] = edge_from_index(8 + perm[i]);
            i = i + 1;
        }
        self.edge_permutation = ep;
        proof {
            assert(self@.cp =~= old(self)@.cp);
            assert(self@.co =~= old(self)@.co);
            assert(self@.eo =~= old(self)@.eo);
            assert forall|j: int| 8 <= j < 12 implies self@.ep[j] == 8 + decode_entry(
                e as int,
                4,
                j - 8,
            ) by {
                assert(edge_index(ep@[(j - 8) + 8]) == 8 + perm@[j - 8] as int);
            }
        }
    }

    /// Places the four UD-slice edges into the slots that the occupancy
    /// rank u selects, and fills the other slots with the non-slice edges
    /// in their fixed order.
    pub fn set_udslice(&mut self, u: usize)
        requires
            u < 495,
        ensures
            forall|j: int| 0 <= j < 12 ==> final(self)@.ep[j] == ud_slot(u as int, j),
            forall|j1: int, j2: int|
                0 <= j1 < 12 && 0 <= j2 < 12 && j1 != j2 ==> final(self)@.ep[j1]
                    != final(self)@.ep[j2],
            forall|j: int| 0 <= j < 12 ==> 0 <= #[trigger] final(self)@.ep[j] < 12,
            final(self)@.cp == old(self)@.cp,
            final(self)@.co == old(self)@.co,
            final(self)@.eo == old(self)@.eo,
    {
        proof {
            lemma_binom_rows();
        }
        let ghost uu = u as int;
        let mut ep = self.edge_permutation;
        let mut x: usize = u;
        // sp is one more than the slice index still to place, so it stays
        // unsigned: sp - 1 == ud_state(u, j - 1).1 throughout.
        let mut sp: usize = 4;
        let mut j: usize = 12;
        while j >= 1
            invariant
                j <= 12,
                0 <= sp <= 4,
                j >= sp,
                j - sp <= 8,
                x == ud_state(uu, j - 1).0,
                sp == ud_state(uu, j - 1).1 + 1,
                x < binom(j as int, sp as int),
                forall|t: int| j <= t < 12 ==> edge_index(#[trigger] ep@[t]) == ud_slot(uu, t),
                forall|t: int|
                    j <= t < 12 && edge_index(#[trigger] ep@[t]) >= 8 ==> edge_index(ep@[t]) >= 8
                        + sp,
                forall|t: int|
                    j <= t < 12 && edge_index(#[trigger] ep@[t]) < 8 ==> edge_index(ep@[t]) >= j
                        - sp,
                forall|t1: int, t2: int|
                    j <= t1 < 12 && j <= t2 < 12 && t1 != t2 ==> edge_index(ep@[t1])
                        != edge_index(ep@[t2]),
            decreases j,
        {
            let jj = j - 1;
            proof {
                crate::utility::lemma_binom_nonneg(jj as int, sp as int - 1);
                crate::utility::lemma_binom_nonneg(jj as int, sp as int);
                crate::utility::lemma_binom_le_2048(jj as int, sp as int - 1);
                crate::utility::lemma_binom_diag(jj as int);
                if jj < sp {
                    crate::utility::lemma_binom_diag(jj as int);
                }
            }
            let b = crate::utility::binomial(jj as i64, sp as i64 - 1) as usize;
            if x < b {
                // This slot takes the next slice edge.
                proof {
                    assert(sp >= 1);
                    assert(ud_is_slice(uu, jj as int));
                }
                ep[jj] = edge_from_index(8 + (sp - 1));
                sp = sp - 1;
            } else {
                // This slot takes the next filler, counted from the
                // bottom; Pascal's rule keeps the rank inside the next
                // binomial bound.
                proof {
                    assert(!ud_is_slice(uu, jj as int));
                    assert(binom(j as int, sp as int) == binom(jj as int, sp as int - 1)
                        + binom(jj as int, sp as int));
                    if sp >= 1 && jj < sp {
                        assert(binom(jj as int, sp as int - 1) == 1);
                        assert(binom(j as int, sp as int) == 1);
                    }
                    assert(jj >= sp);
                }
                ep[jj] = edge_from_index(jj - sp);
                x = x - b;
            }
            j = jj;
        }
        self.edge_permutation = ep;
        proof {
            assert(self@.cp =~= old(self)@.cp);
            assert(self@.co =~= old(self)@.co);
            assert(self@.eo =~= old(self)@.eo);
        }
    }

    /// Builds the compositional inverse: multiplying the inverse and then
    /// this cube (in either order) gives the solved cube.
    pub fn inverse_cubiecube(self) -> (r: CubieCube)
        requires
            self@.wf(),
        ensures
            CubieSpec::mult(r@, self@) == CubieSpec::solved(),
            CubieSpec::mult(self@, r@) == CubieSpec::solved(),
            r@.wf(),
    {
        let mut cc = CubieCube::reset();
        let mut cp = cc.corner_permutation;
        let mut ep = cc.edge_permutation;
        let mut i: usize = 0;
        while i < 8
            invariant
                i <= 8,
                self@.wf(),
                cp@.len() == 8,
                forall|j: int| 0 <= j < i ==> corner_index(cp@[#[trigger] self@.cp[j]]) == j,
            decreases 8 - i,
        {
            let s = corner_to_index(self.corner_permutation[i]);
            cp[s] = corner_from_index(i);
            proof {
                assert forall|j: int| 0 <= j < i + 1 implies corner_index(
                    cp@[#[trigger] self@.cp[j]],
                ) == j by {
                    if j < i {
                        assert(self@.cp[j] != self@.cp[i as int]);
                    }
                }
            }
            i = i + 1;
        }
        let mut i: usize = 0;
        while i < 12
            invariant
                i <= 12,
                self@.wf(),
                ep@.len() == 12,
                forall|j: int| 0 <= j < 8 ==> corner_index(cp@[#[trigger] self@.cp[j]]) == j,
                forall|j: int| 0 <= j < i ==> edge_index(ep@[#[trigger] self@.ep[j]]) == j,
            decreases 12 - i,
        {
            let s = edge_to_index(self.edge_permutation[i]);
            ep[s] = edge_from_index(i);
            proof {
                assert forall|j: int| 0 <= j < i + 1 implies edge_index(
                    ep@[#[trigger] self@.ep[j]],
                ) == j by {
                    if j < i {
                        assert(self@.ep[j] != self@.ep[i as int]);
                    }
                }
            }
            i = i + 1;
        }
        cc.corner_permutation = cp;
        cc.edge_permutation = ep;
        proof {
            lemma_wf_surjective(self@);
        }
        // With the permutations inverted, undo each piece's turn: the
        // orientation of slot i is the complement of what this cube gives
        // the piece that the inverse sends there.
        let mut co = cc.corner_orientation;
        let mut eo = cc.edge_orientation;
        let mut i: usize = 0;
        while i < 8
            invariant
                i <= 8,
                self@.wf(),
                cc@.cp.len() == 8,
                forall|j: int| 0 <= j < 8 ==> corner_index(cc.corner_permutation@[#[trigger] self@.cp[j]]) == j,
                forall|j: int| 0 <= j < 8 ==> 0 <= #[trigger] cc@.cp[j] < 8,
                co@.len() == 8,
                forall|j: int|
                    0 <= j < i ==> #[trigger] co@[j] as int == (3 - self@.co[cc@.cp[j]]) % 3,
            decreases 8 - i,
        {
            let k = corner_to_index(cc.corner_permutation[i]);
            proof {
                assert(cc@.cp[i as int] == corner_index(cc.corner_permutation@[i as int]));
                assert(self@.co[k as int] == self.corner_orientation@[k as int] as int);
            }
            co[i] = (3 - self.corner_orientation[k]) % 3;
            i = i + 1;
        }
        let mut i: usize = 0;
        while i < 12
            invariant
                i <= 12,
                self@.wf(),
                forall|j: int| 0 <= j < 12 ==> 0 <= #[trigger] cc@.ep[j] < 12,
                eo@.len() == 12,
                forall|j: int|
                    0 <= j < i ==> #[trigger] eo@[j] as int == (2 - self@.eo[cc@.ep[j]]) % 2,
            decreases 12 - i,
        {
            let k = edge_to_index(cc.edge_permutation[i]);
            proof {
                assert(cc@.ep[i as int] == edge_index(cc.edge_permutation@[i as int]));
                assert(self@.eo[k as int] == self.edge_orientation@[k as int] as int);
            }
            eo[i] = (2 - self.edge_orientation[k]) % 2;
            i = i + 1;
        }
        cc.corner_orientation = co;
        cc.edge_orientation = eo;
        proof {
            lemma_inverse_props(self@, cc@);
        }
        cc
    }

    /// Checks that this cube is solvable, in the order the validator
    /// reports problems: 0 solvable; 4 a corner piece missing or doubled;
    /// 2 an edge piece missing or doubled; 5 the corner-twist sum broken;
    /// 3 the edge-flip sum broken; 6 corner and edge parity unequal.
    pub fn can_solve(self) -> (r: usize)
        requires
            self@.ranges_ok(),
        ensures
            r == 0 <==> solvable(self@),
            r == 4 <==> !corners_complete(self@),
            r == 2 <==> corners_complete(self@) && !edges_complete(self@),
            r == 5 <==> corners_complete(self@) && edges_complete(self@) && co_sum(self@) % 3
                != 0,
            r == 3 <==> corners_complete(self@) && edges_complete(self@) && co_sum(self@) % 3
                == 0 && eo_sum(self@) % 2 != 0,
            r == 6 <==> corners_complete(self@) && edges_complete(self@) && co_sum(self@) % 3
                == 0 && eo_sum(self@) % 2 == 0 && corner_parity_of(self@) != edge_parity_of(
                self@,
            ),
            r == 0 || r == 2 || r == 3 || r == 4 || r == 5 || r == 6,
    {
        let corners_ok = self.corners_complete_check();
        if !corners_ok {
            return 4;
        }
        let edges_ok = self.edges_complete_check();
        if !edges_ok {
            return 2;
        }
        proof {
            assert forall|i: int| 0 <= i < 8 implies self.corner_orientation@[i] < 3 by {
                assert(self@.co[i] == self.corner_orientation@[i] as int);
            }
            assert forall|i: int| 0 <= i < 12 implies self.edge_orientation@[i] < 2 by {
                assert(self@.eo[i] == self.edge_orientation@[i] as int);
            }
        }
        let co_total = self.corner_orientation[0] + self.corner_orientation[1]
            + self.corner_orientation[2] + self.corner_orientation[3] + self.corner_orientation[4]
            + self.corner_orientation[5] + self.corner_orientation[6] + self.corner_orientation[7];
        if co_total % 3 != 0 {
            return 5;
        }
        let eo_total = self.edge_orientation[0] + self.edge_orientation[1]
            + self.edge_orientation[2] + self.edge_orientation[3] + self.edge_orientation[4]
            + self.edge_orientation[5] + self.edge_orientation[6] + self.edge_orientation[7]
            + self.edge_orientation[8] + self.edge_orientation[9] + self.edge_orientation[10]
            + self.edge_orientation[11];
        if eo_total % 2 != 0 {
            return 3;
        }
        if self.corner_parity() != self.edge_parity() {
            return 6;
        }
        0
    }

    /// Whether every corner piece occupies exactly one slot.
    fn corners_complete_check(&self) -> (r: bool)
        requires
            self@.ranges_ok(),
        ensures
            r == corners_complete(self@),
    {
        let mut counts: [usize; 8] = [0, 0, 0, 0, 0, 0, 0, 0];
        let mut i: usize = 0;
        while i < 8
            invariant
                i <= 8,
                self@.ranges_ok(),
                counts@.len() == 8,
                forall|v: int| 0 <= v < 8 ==> #[trigger] counts@[v] as int == occ(self@.cp, v, i as int),
            decreases 8 - i,
        {
            let v = corner_to_index(self.corner_permutation[i]);
            proof {
                assert(self@.cp[i as int] == corner_index(self.corner_permutation@[i as int]));
                assert forall|w: int| 0 <= w < 8 implies occ(self@.cp, w, i + 1) == occ(
                    self@.cp,
                    w,
                    i as int,
                ) + (if self@.cp[i as int] == w {
                    1int
                } else {
                    0int
                }) by {}
                lemma_occ_nonneg(self@.cp, self@.cp[i as int], i as int);
            }
            counts[v] = counts[v] + 1;
            i = i + 1;
        }
        let mut v: usize = 0;
        let mut all_one = true;
        while v < 8
            invariant
                v <= 8,
                self@.ranges_ok(),
                counts@.len() == 8,
                forall|w: int| 0 <= w < 8 ==> #[trigger] counts@[w] as int == occ(self@.cp, w, 8),
                all_one == forall|w: int| 0 <= w < v ==> #[trigger] occ(self@.cp, w, 8) == 1,
            decreases 8 - v,
        {
            if counts[v] != 1 {
                all_one = false;
            }
            v = v + 1;
        }
        proof {
            lemma_occ_total8(self@.cp, 8);
            if !all_one {
                let w = choose|w: int| 0 <= w < 8 && occ(self@.cp, w, 8) != 1;
                if occ(self@.cp, w, 8) != 0 {
                    // Some value occurs at least twice, so with only
                    // eight slots another value cannot occur at all.
                    assert forall|u: int| 0 <= u < 8 implies occ(self@.cp, u, 8) >= 0 by {
                        lemma_occ_nonneg(self@.cp, u, 8);
                    }
                    if corners_complete(self@) {
                        assert(occ(self@.cp, w, 8) >= 2);
                        assert(false);
                    }
                }
            }
        }
        all_one
    }

    /// Whether every edge piece occupies exactly one slot.
    fn edges_complete_check(&self) -> (r: bool)
        requires
            self@.ranges_ok(),
        ensures
            r == edges_complete(self@),
    {
        let mut counts: [usize; 12] = [0, 0, 0, 0, 0, 0, 0, 0, 0, 0, 0, 0];
        let mut i: usize = 0;
        while i < 12
            invariant
                i <= 12,
                self@.ranges_ok(),
                counts@.len() == 12,
                forall|v: int| 0 <= v < 12 ==> #[trigger] counts@[v] as int == occ(self@.ep, v, i as int),
            decreases 12 - i,
        {
            let v = edge_to_index(self.edge_permutation[i]);
            proof {
                assert(self@.ep[i as int] == edge_index(self.edge_permutation@[i as int]));
                assert forall|w: int| 0 <= w < 12 implies occ(self@.ep, w, i + 1) == occ(
                    self@.ep,
                    w,
                    i as int,
                ) + (if self@.ep[i as int] == w {
                    1int
                } else {
                    0int
                }) by {}
                lemma_occ_nonneg(self@.ep, self@.ep[i as int], i as int);
            }
            counts[v] = counts[v] + 1;
            i = i + 1;
        }
        let mut v: usize = 0;
        let mut all_one = true;
        while v < 12
            invariant
                v <= 12,
                self@.ranges_ok(),
                counts@.len() == 12,
                forall|w: int| 0 <= w < 12 ==> #[trigger] counts@[w] as int == occ(self@.ep, w, 12),
                all_one == forall|w: int| 0 <= w < v ==> #[trigger] occ(self@.ep, w, 12) == 1,
            decreases 12 - v,
        {
            if counts[v] != 1 {
                all_one = false;
            }
            v = v + 1;
        }
        proof {
            lemma_occ_total(self@.ep, 12);
            if !all_one {
                let w = choose|w: int| 0 <= w < 12 && occ(self@.ep, w, 12) != 1;
                if occ(self@.ep, w, 12) != 0 {
                    assert forall|u: int| 0 <= u < 12 implies occ(self@.ep, u, 12) >= 0 by {
                        lemma_occ_nonneg(self@.ep, u, 12);
                    }
                    if edges_complete(self@) {
                        assert(occ(self@.ep, w, 12) >= 2);
                        assert(false);
                    }
                }
            }
        }
        all_one
    }

    /// Whether this cube is the solved cube.
    pub fn is_solved(&self) -> (r: bool)
        ensures
            r == (self@ == CubieSpec::solved()),
    {
        let mut i: usize = 0;
        while i < 8
            invariant
                i <= 8,
                forall|k: int|
                    0 <= k < i ==> self@.cp[k] == CubieSpec::solved().cp[k]
                        && self@.co[k] == CubieSpec::solved().co[k],
            decreases 8 - i,
        {
            if corner_to_index(self.corner_permutation[i]) != i || self.corner_orientation[i] != 0 {
                proof {
                    assert(self@.cp[i as int] != CubieSpec::solved().cp[i as int]
                        || self@.co[i as int] != CubieSpec::solved().co[i as int]);
                }
                return false;
            }
            i = i + 1;
        }
        let mut i: usize = 0;
        while i < 12
            invariant
                i <= 12,
                forall|k: int|
                    0 <= k < 8 ==> self@.cp[k] == CubieSpec::solved().cp[k]
                        && self@.co[k] == CubieSpec::solved().co[k],
                forall|k: int|
                    0 <= k < i ==> self@.ep[k] == CubieSpec::solved().ep[k]
                        && self@.eo[k] == CubieSpec::solved().eo[k],
            decreases 12 - i,
        {
            if edge_to_index(self.edge_permutation[i]) != i || self.edge_orientation[i] != 0 {
                proof {
                    assert(self@.ep[i as int] != CubieSpec::solved().ep[i as int]
                        || self@.eo[i as int] != CubieSpec::solved().eo[i as int]);
                }
                return false;
            }
            i = i + 1;
        }
        proof {
            assert(self@.cp =~= CubieSpec::solved().cp);
            assert(self@.co =~= CubieSpec::solved().co);
            assert(self@.ep =~= CubieSpec::solved().ep);
            assert(self@.eo =~= CubieSpec::solved().eo);
            assert(self@ =~= CubieSpec::solved());
        }
        true
    }
}

/// The base-3 digits that the twist coordinate sets: the first seven
/// corner orientations, and an eighth fixed so that the sum is a multiple
/// of 3.
pub open spec fn twist_digits(t: int) -> Seq<int> {
    let d0 = t / 729 % 3;
    let d1 = t / 243 % 3;
    let d2 = t / 81 % 3;
    let d3 = t / 27 % 3;
    let d4 = t / 9 % 3;
    let d5 = t / 3 % 3;
    let d6 = t % 3;
    seq![d0, d1, d2, d3, d4, d5, d6, (3 - (d0 + d1 + d2 + d3 + d4 + d5 + d6) % 3) % 3]
}

/// The base-2 digits that the flip coordinate sets: the first eleven edge
/// orientations, and a twelfth fixed so that the sum is even.
pub open spec fn flip_digits(f: int) -> Seq<int> {
    let d0 = f / 1024 % 2;
    let d1 = f / 512 % 2;
    let d2 = f / 256 % 2;
    let d3 = f / 128 % 2;
    let d4 = f / 64 % 2;
    let d5 = f / 32 % 2;
    let d6 = f / 16 % 2;
    let d7 = f / 8 % 2;
    let d8 = f / 4 % 2;
    let d9 = f / 2 % 2;
    let d10 = f % 2;
    seq![
        d0,
        d1,
        d2,
        d3,
        d4,
        d5,
        d6,
        d7,
        d8,
        d9,
        d10,
        (2 - (d0 + d1 + d2 + d3 + d4 + d5 + d6 + d7 + d8 + d9 + d10) % 2) % 2,
    ]
}

/// Digit i of the factorial number system representation of c.
pub open spec fn perm_digit(c: int, i: int) -> int {
    (c / fact(i as nat) as int) % (i + 1)
}

/// The pool of values still unplaced after the permutation decoder has
/// filled positions above i: positions are filled from n-1 downwards, each
/// taking the entry its digit selects.
pub open spec fn rem_at(c: int, n: int, i: int) -> Seq<int>
    decreases n - i,
{
    if i >= n - 1 {
        Seq::new(n as nat, |k: int| k)
    } else {
        rem_at(c, n, i + 1).remove(i + 1 - perm_digit(c, i + 1))
    }
}

/// The value the permutation decoder places at position i.
pub open spec fn decode_entry(c: int, n: int, i: int) -> int {
    if i == 0 {
        rem_at(c, n, 0)[0]
    } else {
        rem_at(c, n, i)[i - perm_digit(c, i)]
    }
}

/// The scan state of the UD-slice decoder before it fills slot j
/// (processing slots from 11 downwards): the rank still to spend, and the
/// index of the next slice edge to place (-1 once all four are placed).
pub open spec fn ud_state(u: int, j: int) -> (int, int)
    decreases 11 - j,
{
    if j >= 11 {
        (u, 3)
    } else {
        let st = ud_state(u, j + 1);
        if st.0 < binom(j + 1, st.1) {
            (st.0, st.1 - 1)
        } else {
            (st.0 - binom(j + 1, st.1), st.1)
        }
    }
}

/// Whether the UD-slice decoder puts a slice edge into slot j.
pub open spec fn ud_is_slice(u: int, j: int) -> bool {
    ud_state(u, j).0 < binom(j, ud_state(u, j).1)
}

/// The edge the UD-slice decoder puts into slot j: the next slice edge,
/// or the next filler counted from the bottom.
pub open spec fn ud_slot(u: int, j: int) -> int {
    if ud_is_slice(u, j) {
        8 + ud_state(u, j).1
    } else {
        j - 1 - ud_state(u, j).1
    }
}

proof fn lemma_perm_digit_bound(c: int, i: int)
    requires
        c >= 0,
        i >= 0,
    ensures
        0 <= perm_digit(c, i) <= i,
{
    crate::utility::lemma_fact_monotone(0, i as nat);
    let q = c / fact(i as nat) as int;
    assert(q >= 0) by (nonlinear_arith)
        requires
            c >= 0,
            fact(i as nat) as int >= 1,
            q == c / fact(i as nat) as int,
    ;
}

proof fn lemma_rem_len(c: int, n: int, i: int)
    requires
        c >= 0,
        0 <= i <= n - 1,
    ensures
        rem_at(c, n, i).len() == i + 1,
    decreases n - i,
{
    if i < n - 1 {
        lemma_rem_len(c, n, i + 1);
        lemma_perm_digit_bound(c, i + 1);
    }
}

/// Decodes a factorial-number-system rank into a permutation of 0..n,
/// filling positions from the top down out of the pool of unused values.
fn decode_perm(c: usize, n: usize) -> (r: Vec<usize>)
    requires
        2 <= n <= 8,
    ensures
        r@.len() == n,
        forall|j: int| 0 <= j < n ==> #[trigger] r@[j] as int == decode_entry(c as int, n as int, j),
        forall|j1: int, j2: int|
            0 <= j1 < n && 0 <= j2 < n && j1 != j2 ==> r@[j1] != r@[j2],
        forall|j: int| 0 <= j < n ==> #[trigger] r@[j] < n,
{
    let mut remaining: Vec<usize> = Vec::new();
    let mut k: usize = 0;
    while k < n
        invariant
            k <= n,
            remaining@.len() == k,
            forall|t: int| 0 <= t < k ==> #[trigger] remaining@[t] == t,
        decreases n - k,
    {
        remaining.push(k);
        k = k + 1;
    }
    let mut perm: Vec<usize> = Vec::new();
    let mut k: usize = 0;
    while k < n
        invariant
            k <= n,
            perm@.len() == k,
        decreases n - k,
    {
        perm.push(0);
        k = k + 1;
    }
    proof {
        assert forall|t: int| 0 <= t < n implies remaining@[t] as int == rem_at(
            c as int,
            n as int,
            n - 1,
        )[t] by {
            assert(rem_at(c as int, n as int, n - 1)[t] == t);
        }
    }
    let mut i: usize = n - 1;
    while i >= 1
        invariant
            i <= n - 1,
            2 <= n <= 8,
            remaining@.len() == i + 1,
            perm@.len() == n,
            forall|t: int|
                0 <= t <= i ==> #[trigger] remaining@[t] as int == rem_at(c as int, n as int, i as int)[t],
            forall|t: int| 0 <= t <= i ==> #[trigger] remaining@[t] < n,
            forall|t1: int, t2: int|
                0 <= t1 <= i && 0 <= t2 <= i && t1 != t2 ==> remaining@[t1] != remaining@[t2],
            forall|j: int|
                i < j < n ==> #[trigger] perm@[j] as int == decode_entry(c as int, n as int, j),
            forall|j: int| i < j < n ==> #[trigger] perm@[j] < n,
            forall|j: int, t: int|
                i < j < n && 0 <= t <= i ==> perm@[j] != remaining@[t],
            forall|j1: int, j2: int|
                i < j1 < n && i < j2 < n && j1 != j2 ==> perm@[j1] != perm@[j2],
        decreases i,
    {
        let fi = crate::utility::factorial(i as i64);
        proof {
            crate::utility::lemma_fact_7();
            crate::utility::lemma_fact_monotone(i as nat, 7);
            lemma_perm_digit_bound(c as int, i as int);
        }
        let fi_u = fi as usize;
        let d = (c / fi_u) % (i + 1);
        proof {
            assert(d as int == perm_digit(c as int, i as int));
        }
        let pick = remaining[i - d];
        perm.set(i, pick);
        remaining.remove(i - d);
        proof {
            lemma_rem_len(c as int, n as int, i as int);
            lemma_rem_len(c as int, n as int, i - 1);
            assert(rem_at(c as int, n as int, i - 1) == rem_at(c as int, n as int, i as int)
                .remove(i - perm_digit(c as int, i as int)));
            assert forall|t: int| 0 <= t <= i - 1 implies remaining@[t] as int == rem_at(
                c as int,
                n as int,
                i - 1,
            )[t] by {}
        }
        i = i - 1;
    }
    let last = remaining[0];
    perm.set(0, last);
    proof {
        assert(decode_entry(c as int, n as int, 0) == rem_at(c as int, n as int, 0)[0]);
    }
    perm
}

/// The solved cube sits at the origin of every coordinate.
pub proof fn lemma_solved_coords()
    ensures
        twist_of(CubieSpec::solved()) == 0,
        flip_of(CubieSpec::solved()) == 0,
        udslice_of(CubieSpec::solved()) == 0,
        edge4_of(CubieSpec::solved()) == 0,
        edge8_of(CubieSpec::solved()) == 0,
        corner_of(CubieSpec::solved()) == 0,
{
    let s = CubieSpec::solved();
    assert(udslice_of(s) == 0) by {
        reveal_with_fuel(udslice_sum, 14);
        reveal_with_fuel(slice_count, 14);
    }
    assert(corner_of(s) == 0) by {
        reveal_with_fuel(lehmer_from, 10);
        reveal_with_fuel(count_gt, 10);
    }
    assert(edge8_of(s) == 0) by {
        reveal_with_fuel(lehmer_from, 10);
        reveal_with_fuel(count_gt, 10);
    }
    assert(edge4_of(s) == 0) by {
        assert(s.ep.subrange(8, 12) =~= seq![8int, 9int, 10int, 11int]);
        reveal_with_fuel(lehmer_from, 6);
        reveal_with_fuel(count_gt, 6);
    }
}

/// The Horner rank over the first n entries only reads those entries, so
/// any sequence sharing that prefix has the same rank.
proof fn lemma_lehmer_prefix(p: Seq<int>, q: Seq<int>, n: int, j: int)
    requires
        0 <= j,
        q.len() >= n,
        forall|k: int| 0 <= k < n ==> p[k] == q[k],
    ensures
        lehmer_from(p, n, j) == lehmer_from(q, n, j),
    decreases n - j,
{
    if j < n {
        lemma_lehmer_prefix(p, q, n, j + 1);
        lemma_count_prefix(p, q, n, j, j);
    }
}

proof fn lemma_count_prefix(p: Seq<int>, q: Seq<int>, n: int, limit: int, j: int)
    requires
        limit <= n,
        0 <= j < n,
        forall|k: int| 0 <= k < n ==> p[k] == q[k],
    ensures
        count_gt(p, limit, j) == count_gt(q, limit, j),
    decreases limit,
{
    if limit > 0 {
        lemma_count_prefix(p, q, n, limit - 1, j);
    }
}

} // verus!
