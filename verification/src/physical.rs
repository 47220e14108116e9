//! The piece-level view of the cube: one record per slot, naming the
//! physical piece that occupies it and that piece's orientation. The six
//! face moves act through the same generator constants as the cubie
//! level, so both views share one move algebra.

use vstd::prelude::*;
use crate::defs::Corner;
use crate::defs::Edge;
use crate::defs::corner_index;
use crate::defs::edge_index;
use crate::cubie::CubieCube;
use crate::cubie::CubieSpec;
use crate::cubie::generator_spec;
use crate::cubie::twist_of;
use crate::cubie::flip_of;
use crate::cubie::udslice_of;
use crate::cubie::edge8_of;
use crate::cubie::corner_of;
use crate::cubie::lehmer_from;
use crate::cubie::corner_parity_of;
use crate::cubie::edge_parity_of;

verus! {

/// The contents of one corner slot: which corner piece sits there and
/// how far it is twisted (0, 1 or 2 clockwise thirds).
#[derive(Clone, Copy, Debug, PartialEq, Eq, Structural)]
pub struct CornerCubie {
    pub orientation: usize,
    pub coordinate: Corner,
}

/// The contents of one edge slot: which edge piece sits there and
/// whether it is flipped.
#[derive(Clone, Copy, Debug, PartialEq, Eq, Structural)]
pub struct EdgeCubie {
    pub orientation: usize,
    pub coordinate: Edge,
}

impl CornerCubie {
    /// A slot holding corner c unturned.
    pub fn new(c: Corner) -> (r: CornerCubie)
        ensures
            r.coordinate == c,
            r.orientation == 0,
    {
        CornerCubie { orientation: 0, coordinate: c }
    }
}

impl EdgeCubie {
    /// A slot holding edge e unflipped.
    pub fn new(e: Edge) -> (r: EdgeCubie)
        ensures
            r.coordinate == e,
            r.orientation == 0,
    {
        EdgeCubie { orientation: 0, coordinate: e }
    }
}

/// A cube as its twenty slots: eight corner records and twelve edge
/// records.
#[derive(Clone, Copy, Debug)]
pub struct Cube {
    pub corners: [CornerCubie; 8],
    pub edges: [EdgeCubie; 12],
}

impl View for Cube {
    type V = CubieSpec;

    open spec fn view(&self) -> CubieSpec {
        CubieSpec {
            cp: Seq::new(8, |i: int| corner_index(self.corners[i].coordinate)),
            co: Seq::new(8, |i: int| self.corners[i].orientation as int),
            ep: Seq::new(12, |i: int| edge_index(self.edges[i].coordinate)),
            eo: Seq::new(12, |i: int| self.edges[i].orientation as int),
        }
    }
}

impl Cube {
    /// The solved cube: every piece home and unturned.
    pub fn new() -> (r: Cube)
        ensures
            r@ == CubieSpec::solved(),
            r@.wf(),
    {
        let r = Cube {
            corners: [
                CornerCubie::new(Corner::URF),
                CornerCubie::new(Corner::UFL),
                CornerCubie::new(Corner::ULB),
                CornerCubie::new(Corner::UBR),
                CornerCubie::new(Corner::DFR),
                CornerCubie::new(Corner::DLF),
                CornerCubie::new(Corner::DBL),
                CornerCubie::new(Corner::DRB),
            ],
            edges: [
                EdgeCubie::new(Edge::UR),
                EdgeCubie::new(Edge::UF),
                EdgeCubie::new(Edge::UL),
                EdgeCubie::new(Edge::UB),
                EdgeCubie::new(Edge::DR),
                EdgeCubie::new(Edge::DF),
                EdgeCubie::new(Edge::DL),
                EdgeCubie::new(Edge::DB),
                EdgeCubie::new(Edge::FR),
                EdgeCubie::new(Edge::FL),
                EdgeCubie::new(Edge::BL),
                EdgeCubie::new(Edge::BR),
            ],
        };
        proof {
            assert(r@.cp =~= CubieSpec::solved().cp);
            assert(r@.co =~= CubieSpec::solved().co);
            assert(r@.ep =~= CubieSpec::solved().ep);
            assert(r@.eo =~= CubieSpec::solved().eo);
            assert(r@ =~= CubieSpec::solved());
        }
        r
    }

    /// This cube's state at the cubie level.
    fn to_cubie(&self) -> (r: CubieCube)
        ensures
            r@ == self@,
    {
        let mut cc = CubieCube::reset();
        let mut cp = cc.corner_permutation;
        let mut co = cc.corner_orientation;
        let mut ep = cc.edge_permutation;
        let mut eo = cc.edge_orientation;
        let mut i: usize = 0;
        while i < 8
            invariant
                i <= 8,
                cp@.len() == 8,
                co@.len() == 8,
                forall|j: int| 0 <= j < i ==> #[trigger] cp@[j] == self.corners@[j].coordinate,
                forall|j: int| 0 <= j < i ==> #[trigger] co@[j] == self.corners@[j].orientation,
            decreases 8 - i,
        {
            cp[i] = self.corners[i].coordinate;
            co[i] = self.corners[i].orientation;
            i = i + 1;
        }
        let mut i: usize = 0;
        while i < 12
            invariant
                i <= 12,
                ep@.len() == 12,
                eo@.len() == 12,
                forall|j: int| 0 <= j < i ==> #[trigger] ep@[j] == self.edges@[j].coordinate,
                forall|j: int| 0 <= j < i ==> #[trigger] eo@[j] == self.edges@[j].orientation,
            decreases 12 - i,
        {
            ep[i] = self.edges[i].coordinate;
            eo[i] = self.edges[i].orientation;
            i = i + 1;
        }
        cc.corner_permutation = cp;
        cc.corner_orientation = co;
        cc.edge_permutation = ep;
        cc.edge_orientation = eo;
        proof {
            assert(cc@.cp =~= self@.cp);
            assert(cc@.co =~= self@.co);
            assert(cc@.ep =~= self@.ep);
            assert(cc@.eo =~= self@.eo);
            assert(cc@ =~= self@);
        }
        cc
    }

    /// Repacks a cubie-level state into slot records.
    fn from_cubie(cc: &CubieCube) -> (r: Cube)
        ensures
            r@ == cc@,
    {
        let mut r = Cube::new();
        let mut corners = r.corners;
        let mut edges = r.edges;
        let mut i: usize = 0;
        while i < 8
            invariant
                i <= 8,
                corners@.len() == 8,
                forall|j: int|
                    0 <= j < i ==> (#[trigger] corners@[j]).coordinate
                        == cc.corner_permutation@[j] && corners@[j].orientation
                        == cc.corner_orientation@[j],
            decreases 8 - i,
        {
            corners[i] = CornerCubie {
                orientation: cc.corner_orientation[i],
                coordinate: cc.corner_permutation[i],
            };
            i = i + 1;
        }
        let mut i: usize = 0;
        while i < 12
            invariant
                i <= 12,
                edges@.len() == 12,
                forall|j: int|
                    0 <= j < i ==> (#[trigger] edges@[j]).coordinate == cc.edge_permutation@[j]
                        && edges@[j].orientation == cc.edge_orientation@[j],
            decreases 12 - i,
        {
            edges[i] = EdgeCubie {
                orientation: cc.edge_orientation[i],
                coordinate: cc.edge_permutation[i],
            };
            i = i + 1;
        }
        r.corners = corners;
        r.edges = edges;
        proof {
            assert(r@.cp =~= cc@.cp);
            assert(r@.co =~= cc@.co);
            assert(r@.ep =~= cc@.ep);
            assert(r@.eo =~= cc@.eo);
            assert(r@ =~= cc@);
        }
        r
    }

    /// Turns one face a quarter clockwise, by the shared generator
    /// constants.
    fn apply(&mut self, axis: usize)
        requires
            axis < 6,
            old(self)@.ranges_ok(),
        ensures
            final(self)@ == CubieSpec::mult(old(self)@, generator_spec(axis as int)),
            final(self)@.ranges_ok(),
    {
        let mut cc = self.to_cubie();
        cc.movement_u(axis);
        *self = Cube::from_cubie(&cc);
    }

    /// A clockwise front move.
    pub fn f(&mut self)
        requires
            old(self)@.ranges_ok(),
        ensures
            final(self)@ == CubieSpec::mult(old(self)@, generator_spec(2)),
            final(self)@.ranges_ok(),
    {
        self.apply(2);
    }

    /// A clockwise back move.
    pub fn b(&mut self)
        requires
            old(self)@.ranges_ok(),
        ensures
            final(self)@ == CubieSpec::mult(old(self)@, generator_spec(5)),
            final(self)@.ranges_ok(),
    {
        self.apply(5);
    }

    /// A clockwise left move.
    pub fn l(&mut self)
        requires
            old(self)@.ranges_ok(),
        ensures
            final(self)@ == CubieSpec::mult(old(self)@, generator_spec(4)),
            final(self)@.ranges_ok(),
    {
        self.apply(4);
    }

    /// A clockwise right move.
    pub fn r(&mut self)
        requires
            old(self)@.ranges_ok(),
        ensures
            final(self)@ == CubieSpec::mult(old(self)@, generator_spec(1)),
            final(self)@.ranges_ok(),
    {
        self.apply(1);
    }

    /// A clockwise upper move.
    pub fn u(&mut self)
        requires
            old(self)@.ranges_ok(),
        ensures
            final(self)@ == CubieSpec::mult(old(self)@, generator_spec(0)),
            final(self)@.ranges_ok(),
    {
        self.apply(0);
    }

    /// A clockwise down move.
    pub fn d(&mut self)
        requires
            old(self)@.ranges_ok(),
        ensures
            final(self)@ == CubieSpec::mult(old(self)@, generator_spec(3)),
            final(self)@.ranges_ok(),
    {
        self.apply(3);
    }

    /// The corner-twist coordinate of this cube.
    pub fn corner_orientation(&self) -> (r: usize)
        requires
            self@.ranges_ok(),
        ensures
            r == twist_of(self@),
            r < 2187,
    {
        let cc = self.to_cubie();
        cc.twist()
    }

    /// The edge-flip coordinate of this cube.
    pub fn edge_orientation(&self) -> (r: usize)
        requires
            self@.ranges_ok(),
        ensures
            r == flip_of(self@),
            r < 2048,
    {
        let cc = self.to_cubie();
        cc.flip()
    }

    /// The corner-permutation coordinate of this cube.
    pub fn corner_permutation(&self) -> (r: usize)
        ensures
            r == corner_of(self@),
            r < 40320,
    {
        let cc = self.to_cubie();
        cc.corner()
    }

    /// The rank of the full twelve-edge permutation.
    pub fn edge_permutation(&self) -> (r: usize)
        ensures
            r == lehmer_from(self@.ep, 12, 1),
            r < 479001600,
    {
        let cc = self.to_cubie();
        let mut p: Vec<usize> = Vec::new();
        let mut i: usize = 0;
        while i < 12
            invariant
                i <= 12,
                p@.len() == i,
                cc@ == self@,
                forall|k: int| 0 <= k < i ==> p@[k] as int == self@.ep[k],
            decreases 12 - i,
        {
            p.push(crate::defs::edge_to_index(cc.edge_permutation[i]));
            i = i + 1;
        }
        proof {
            assert(crate::cubie::int_view(p@) =~= self@.ep);
        }
        crate::cubie::lehmer_rank(&p)
    }

    /// The UD-slice coordinate of this cube.
    pub fn ud_slice(&self) -> (r: usize)
        requires
            self@.wf(),
        ensures
            r == udslice_of(self@),
            r < 495,
    {
        let cc = self.to_cubie();
        cc.udslice()
    }

    /// The phase-2 edge-8 coordinate of this cube.
    pub fn phase_two_edge_permutation(&self) -> (r: usize)
        ensures
            r == edge8_of(self@),
            r < 40320,
    {
        let cc = self.to_cubie();
        cc.edge8()
    }

    /// The parity of the corner permutation.
    pub fn corner_parity(&self) -> (r: usize)
        ensures
            r == corner_parity_of(self@),
            r < 2,
    {
        let cc = self.to_cubie();
        cc.corner_parity()
    }

    /// The parity of the edge permutation.
    pub fn edge_parity(&self) -> (r: usize)
        ensures
            r == edge_parity_of(self@),
            r < 2,
    {
        let cc = self.to_cubie();
        cc.edge_parity()
    }
}

} // verus!
