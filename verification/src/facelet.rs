//! The facelet-level cube: a grid of 54 coloured stickers, with the
//! conversions to and from the cubie level and the legality checks that
//! guard the solver's input.

use vstd::prelude::*;
use vstd::prelude::StringExecFns;
use crate::defs::Corner;
use crate::defs::Edge;
use crate::defs::Facelets;
use crate::defs::corner_index;
use crate::defs::edge_index;
use crate::defs::facelet_index;
use crate::defs::facelet_char;
use crate::defs::facelet_from_char;
use crate::defs::facelet_from_index;
use crate::defs::facelet_to_index;
use crate::defs::corner_at;
use crate::defs::edge_at;
use crate::defs::corner_from_index;
use crate::defs::edge_from_index;
use crate::defs::corner_to_index;
use crate::defs::edge_to_index;
use crate::defs::corner_positions;
use crate::defs::edge_positions;
use crate::defs::corner_colour_seq;
use crate::defs::edge_colour_seq;
use crate::defs::corner_colours;
use crate::defs::edge_colours;
use crate::defs::corner_facelet;
use crate::defs::edge_facelet;
use crate::cubie::CubieCube;
use crate::cubie::CubieSpec;
use crate::cubie::occ;

verus! {

/// Everything that can be wrong with a solve request: a malformed facelet
/// string, an impossible sticker pattern, or a search that ran out of
/// depth.
#[derive(Clone, Copy, Debug, PartialEq, Eq, Structural)]
pub enum ErrorKind {
    InvalidCharacter,
    WrongLength,
    DuplicateColour,
    MissingColour,
    MissingCorner,
    MissingEdge,
    BadCornerTwist,
    BadEdgeFlip,
    ParityMismatch,
    NoSolution,
}

/// A cube described by the colours of its 54 stickers.
pub struct FaceCube {
    pub f: [Facelets; 54],
}

/// Whether c names a face colour.
pub open spec fn valid_facelet_char(c: char) -> bool {
    c == 'U' || c == 'R' || c == 'F' || c == 'D' || c == 'L' || c == 'B'
}

/// The colour a facelet letter names (arbitrary on letters that name
/// none).
pub open spec fn facelet_of_char(c: char) -> Facelets {
    if c == 'U' {
        Facelets::U
    } else if c == 'R' {
        Facelets::R
    } else if c == 'F' {
        Facelets::F
    } else if c == 'D' {
        Facelets::D
    } else if c == 'L' {
        Facelets::L
    } else {
        Facelets::B
    }
}

/// The facelet grid a 54-letter string describes.
pub open spec fn face_of_chars(s: Seq<char>) -> Seq<Facelets> {
    Seq::new(54, |i: int| facelet_of_char(s[i]))
}

/// The colours of a facelet grid, as their ranks.
pub open spec fn face_ints(face: Seq<Facelets>) -> Seq<int> {
    Seq::new(face.len(), |i: int| facelet_index(face[i]))
}

/// How often colour v appears on the grid.
pub open spec fn colour_count(face: Seq<Facelets>, v: int) -> int {
    occ(face_ints(face), v, 54)
}

/// The first colour that does not appear exactly nine times, if any
/// (6 when all counts are right).
pub open spec fn first_bad_colour(face: Seq<Facelets>) -> int {
    if colour_count(face, 0) != 9 {
        0
    } else if colour_count(face, 1) != 9 {
        1
    } else if colour_count(face, 2) != 9 {
        2
    } else if colour_count(face, 3) != 9 {
        3
    } else if colour_count(face, 4) != 9 {
        4
    } else if colour_count(face, 5) != 9 {
        5
    } else {
        6
    }
}

/// Whether every colour appears exactly nine times.
pub open spec fn colours_ok(face: Seq<Facelets>) -> bool {
    forall|v: int| 0 <= v < 6 ==> #[trigger] colour_count(face, v) == 9
}

/// Whether a sticker shows the colour of the U or D face.
pub open spec fn is_ud(f: Facelets) -> bool {
    f == Facelets::U || f == Facelets::D
}

/// The sticker at position k of corner slot i.
pub open spec fn corner_sticker(face: Seq<Facelets>, i: int, k: int) -> Facelets {
    face[corner_positions()[i][k]]
}

/// The sticker at position k of edge slot i.
pub open spec fn edge_sticker(face: Seq<Facelets>, i: int, k: int) -> Facelets {
    face[edge_positions()[i][k]]
}

/// The orientation corner slot i shows: the position of its U/D-coloured
/// sticker, or 3 when none of the three is U or D.
pub open spec fn corner_ori_spec(face: Seq<Facelets>, i: int) -> int {
    if is_ud(corner_sticker(face, i, 0)) {
        0
    } else if is_ud(corner_sticker(face, i, 1)) {
        1
    } else if is_ud(corner_sticker(face, i, 2)) {
        2
    } else {
        3
    }
}

/// The first corner piece from c upwards whose second and third colours
/// match, or 8 when none does.
pub open spec fn corner_match_from(col1: Facelets, col2: Facelets, c: int) -> int
    decreases 8 - c,
{
    if c >= 8 {
        8
    } else if corner_colour_seq(corner_at(c))[1] == col1 && corner_colour_seq(corner_at(c))[2]
        == col2 {
        c
    } else {
        corner_match_from(col1, col2, c + 1)
    }
}

/// The corner piece slot i holds, read from its stickers; 8 when the slot
/// cannot be identified.
pub open spec fn corner_piece_spec(face: Seq<Facelets>, i: int) -> int {
    let o = corner_ori_spec(face, i);
    if o >= 3 {
        8
    } else {
        corner_match_from(
            corner_sticker(face, i, (o + 1) % 3),
            corner_sticker(face, i, (o + 2) % 3),
            0,
        )
    }
}

/// The first edge piece from e upwards whose colour pair matches, with
/// the orientation the match fixes; (12, 0) when none does.
pub open spec fn edge_match_from(e0: Facelets, e1: Facelets, e: int) -> (int, int)
    decreases 12 - e,
{
    if e >= 12 {
        (12, 0)
    } else if edge_colour_seq(edge_at(e))[0] == e0 && edge_colour_seq(edge_at(e))[1] == e1 {
        (e, 0)
    } else if edge_colour_seq(edge_at(e))[0] == e1 && edge_colour_seq(edge_at(e))[1] == e0 {
        (e, 1)
    } else {
        edge_match_from(e0, e1, e + 1)
    }
}

/// The edge piece slot i holds; 12 when the slot cannot be identified.
pub open spec fn edge_piece_spec(face: Seq<Facelets>, i: int) -> int {
    edge_match_from(edge_sticker(face, i, 0), edge_sticker(face, i, 1), 0).0
}

/// The orientation edge slot i shows.
pub open spec fn edge_ori_spec(face: Seq<Facelets>, i: int) -> int {
    edge_match_from(edge_sticker(face, i, 0), edge_sticker(face, i, 1), 0).1
}

/// Every corner slot's stickers name a real corner piece.
pub open spec fn corners_inferable(face: Seq<Facelets>) -> bool {
    forall|i: int| 0 <= i < 8 ==> #[trigger] corner_piece_spec(face, i) < 8
}

/// No two corner slots name the same piece.
pub open spec fn corners_distinct(face: Seq<Facelets>) -> bool {
    forall|i: int, j: int|
        0 <= i < 8 && 0 <= j < 8 && i != j ==> corner_piece_spec(face, i) != corner_piece_spec(
            face,
            j,
        )
}

/// Every edge slot's stickers name a real edge piece.
pub open spec fn edges_inferable(face: Seq<Facelets>) -> bool {
    forall|i: int| 0 <= i < 12 ==> #[trigger] edge_piece_spec(face, i) < 12
}

/// No two edge slots name the same piece.
pub open spec fn edges_distinct(face: Seq<Facelets>) -> bool {
    forall|i: int, j: int|
        0 <= i < 12 && 0 <= j < 12 && i != j ==> edge_piece_spec(face, i) != edge_piece_spec(
            face,
            j,
        )
}

/// The cubie state a readable facelet grid depicts.
pub open spec fn cubie_of_face(face: Seq<Facelets>) -> CubieSpec {
    CubieSpec {
        cp: Seq::new(8, |i: int| corner_piece_spec(face, i)),
        co: Seq::new(8, |i: int| corner_ori_spec(face, i)),
        ep: Seq::new(12, |i: int| edge_piece_spec(face, i)),
        eo: Seq::new(12, |i: int| edge_ori_spec(face, i)),
    }
}

proof fn lemma_edge_match_range(e0: Facelets, e1: Facelets, e: int)
    requires
        0 <= e <= 12,
    ensures
        e <= edge_match_from(e0, e1, e).0 <= 12,
        0 <= edge_match_from(e0, e1, e).1 <= 1,
    decreases 12 - e,
{
    if e < 12 {
        lemma_edge_match_range(e0, e1, e + 1);
    }
}

impl FaceCube {
    /// Reads a facelet grid from 54 colour letters; rejects any other
    /// length and any letter that names no face.
    pub fn new(cube_array: Vec<char>) -> (r: Result<FaceCube, ErrorKind>)
        ensures
            match r {
                Ok(fc) => {
                    &&& cube_array@.len() == 54
                    &&& forall|i: int|
                        0 <= i < 54 ==> facelet_char(#[trigger] fc.f@[i]) == cube_array@[i]
                },
                Err(e) => {
                    &&& (e == ErrorKind::WrongLength <==> cube_array@.len() != 54)
                    &&& (e == ErrorKind::InvalidCharacter <==> cube_array@.len() == 54
                        && exists|i: int|
                        0 <= i < 54 && !valid_facelet_char(#[trigger] cube_array@[i]))
                    &&& (e == ErrorKind::WrongLength || e == ErrorKind::InvalidCharacter)
                },
            },
    {
        if cube_array.len() != 54 {
            return Err(ErrorKind::WrongLength);
        }
        let mut f: [Facelets; 54] = [Facelets::U; 54];
        let mut i: usize = 0;
        while i < 54
            invariant
                i <= 54,
                cube_array@.len() == 54,
                f@.len() == 54,
                forall|j: int|
                    0 <= j < i ==> facelet_char(#[trigger] f@[j]) == cube_array@[j],
                forall|j: int| 0 <= j < i ==> valid_facelet_char(#[trigger] cube_array@[j]),
            decreases 54 - i,
        {
            match facelet_from_char(cube_array[i]) {
                Some(fl) => {
                    f[i] = fl;
                },
                None => {
                    proof {
                        assert(!valid_facelet_char(cube_array@[i as int])) by {
                            assert(cube_array@[i as int] != facelet_char(Facelets::U));
                            assert(cube_array@[i as int] != facelet_char(Facelets::R));
                            assert(cube_array@[i as int] != facelet_char(Facelets::F));
                            assert(cube_array@[i as int] != facelet_char(Facelets::D));
                            assert(cube_array@[i as int] != facelet_char(Facelets::L));
                            assert(cube_array@[i as int] != facelet_char(Facelets::B));
                        }
                    }
                    return Err(ErrorKind::InvalidCharacter);
                },
            }
            i = i + 1;
        }
        proof {
            assert forall|j: int| 0 <= j < 54 implies valid_facelet_char(
                #[trigger] cube_array@[j],
            ) by {}
        }
        Ok(FaceCube { f })
    }

    /// The solved facelet grid: each face shows its own colour.
    pub fn reset() -> (r: FaceCube)
        ensures
            r.f@.len() == 54,
            forall|i: int| 0 <= i < 54 ==> facelet_index(#[trigger] r.f@[i]) == i / 9,
    {
        let mut f: [Facelets; 54] = [Facelets::U; 54];
        let mut i: usize = 0;
        while i < 54
            invariant
                i <= 54,
                f@.len() == 54,
                forall|j: int| 0 <= j < i ==> facelet_index(#[trigger] f@[j]) == j / 9,
            decreases 54 - i,
        {
            f[i] = facelet_from_index(i / 9);
            i = i + 1;
        }
        FaceCube { f }
    }

    /// Renders the grid as its 54-letter string.
    pub fn to_string(&self) -> (r: String)
        ensures
            r@.len() == 54,
            forall|i: int| 0 <= i < 54 ==> r@[i] == facelet_char(#[trigger] self.f@[i]),
    {
        let mut out = String::new();
        let mut i: usize = 0;
        while i < 54
            invariant
                i <= 54,
                out@.len() == i,
                forall|j: int| 0 <= j < i ==> out@[j] == facelet_char(#[trigger] self.f@[j]),
            decreases 54 - i,
        {
            out.append(facelet_letter(self.f[i]));
            i = i + 1;
        }
        out
    }

    /// How often colour v (0..6) appears on this grid.
    fn colour_occurrences(&self, v: usize) -> (r: usize)
        requires
            v < 6,
        ensures
            r == colour_count(self.f@, v as int),
    {
        let mut count: usize = 0;
        let mut i: usize = 0;
        while i < 54
            invariant
                i <= 54,
                count == occ(face_ints(self.f@), v as int, i as int),
                count <= i,
            decreases 54 - i,
        {
            proof {
                assert(face_ints(self.f@)[i as int] == facelet_index(self.f@[i as int]));
            }
            if facelet_to_index(self.f[i]) == v {
                count = count + 1;
            }
            i = i + 1;
        }
        count
    }

    /// Checks that every colour appears exactly nine times, reporting the
    /// first that is over- or under-represented.
    pub fn check_colours(&self) -> (r: Result<(), ErrorKind>)
        ensures
            r is Ok <==> colours_ok(self.f@),
            r == Err::<(), ErrorKind>(ErrorKind::DuplicateColour) <==> (first_bad_colour(self.f@)
                < 6 && colour_count(self.f@, first_bad_colour(self.f@)) > 9),
            r == Err::<(), ErrorKind>(ErrorKind::MissingColour) <==> (first_bad_colour(self.f@) < 6
                && colour_count(self.f@, first_bad_colour(self.f@)) < 9),
    {
        let mut v: usize = 0;
        while v < 6
            invariant
                v <= 6,
                forall|w: int| 0 <= w < v ==> #[trigger] colour_count(self.f@, w) == 9,
            decreases 6 - v,
        {
            let c = self.colour_occurrences(v);
            if c > 9 {
                return Err(ErrorKind::DuplicateColour);
            }
            if c < 9 {
                return Err(ErrorKind::MissingColour);
            }
            v = v + 1;
        }
        Ok(())
    }
}

fn is_ud_exec(f: Facelets) -> (r: bool)
    ensures
        r == is_ud(f),
{
    match f {
        Facelets::U => true,
        Facelets::D => true,
        _ => false,
    }
}

impl FaceCube {
    /// Reads the cubie state off the stickers: each corner slot's
    /// orientation is the position of its U/D sticker and its piece the
    /// match of the remaining colour pair; edges likewise from their
    /// colour pair. Corner problems are reported before edge problems.
    pub fn to_cubie_cube(&self) -> (r: Result<CubieCube, ErrorKind>)
        ensures
            match r {
                Ok(cc) => {
                    &&& corners_inferable(self.f@)
                    &&& corners_distinct(self.f@)
                    &&& edges_inferable(self.f@)
                    &&& edges_distinct(self.f@)
                    &&& cc@ == cubie_of_face(self.f@)
                    &&& cc@.wf()
                },
                Err(e) => {
                    &&& (e == ErrorKind::MissingCorner <==> !(corners_inferable(self.f@)
                        && corners_distinct(self.f@)))
                    &&& (e == ErrorKind::MissingEdge <==> corners_inferable(self.f@)
                        && corners_distinct(self.f@) && !(edges_inferable(self.f@)
                        && edges_distinct(self.f@)))
                    &&& (e == ErrorKind::MissingCorner || e == ErrorKind::MissingEdge)
                },
            },
    {
        let base = CubieCube::reset();
        let mut cp: [Corner; 8] = base.corner_permutation;
        let mut co: [usize; 8] = base.corner_orientation;
        let mut i: usize = 0;
        while i < 8
            invariant
                i <= 8,
                cp@.len() == 8,
                co@.len() == 8,
                forall|j: int| 0 <= j < i ==> #[trigger] corner_piece_spec(self.f@, j) < 8,
                forall|j: int|
                    0 <= j < i ==> corner_index(#[trigger] cp@[j]) == corner_piece_spec(
                        self.f@,
                        j,
                    ),
                forall|j: int|
                    0 <= j < i ==> #[trigger] co@[j] as int == corner_ori_spec(self.f@, j),
            decreases 8 - i,
        {
            let s0 = self.f[corner_facelet(i, 0)];
            let s1 = self.f[corner_facelet(i, 1)];
            let s2 = self.f[corner_facelet(i, 2)];
            proof {
                assert(corner_sticker(self.f@, i as int, 0) == s0);
                assert(corner_sticker(self.f@, i as int, 1) == s1);
                assert(corner_sticker(self.f@, i as int, 2) == s2);
            }
            let o: usize = if is_ud_exec(s0) {
                0
            } else if is_ud_exec(s1) {
                1
            } else if is_ud_exec(s2) {
                2
            } else {
                3
            };
            proof {
                assert(corner_ori_spec(self.f@, i as int) == o as int);
            }
            if o == 3 {
                proof {
                    assert(corner_piece_spec(self.f@, i as int) == 8);
                    assert(!corners_inferable(self.f@));
                }
                return Err(ErrorKind::MissingCorner);
            }
            let col1 = self.f[corner_facelet(i, (o + 1) % 3)];
            let col2 = self.f[corner_facelet(i, (o + 2) % 3)];
            proof {
                assert(corner_sticker(self.f@, i as int, (o + 1) % 3 as int) == col1);
                assert(corner_sticker(self.f@, i as int, (o + 2) % 3 as int) == col2);
            }
            let mut c: usize = 0;
            let mut found: usize = 8;
            while c < 8
                invariant
                    c <= 8,
                    found <= 8,
                    found == 8 ==> corner_match_from(col1, col2, 0) == corner_match_from(
                        col1,
                        col2,
                        c as int,
                    ),
                    found < 8 ==> corner_match_from(col1, col2, 0) == found,
                decreases 8 - c,
            {
                if found == 8 {
                    let cols = corner_colours(corner_from_index(c));
                    if cols[1] == col1 && cols[2] == col2 {
                        proof {
                            assert(corner_match_from(col1, col2, c as int) == c);
                        }
                        found = c;
                    }
                }
                c = c + 1;
            }
            proof {
                assert(found == corner_match_from(col1, col2, 0));
            }
            if found == 8 {
                proof {
                    assert(corner_piece_spec(self.f@, i as int) == 8);
                    assert(!corners_inferable(self.f@));
                }
                return Err(ErrorKind::MissingCorner);
            }
            proof {
                let osp = corner_ori_spec(self.f@, i as int);
                assert(osp == o as int);
                assert(osp < 3);
                assert(corner_sticker(self.f@, i as int, (osp + 1) % 3) == col1);
                assert(corner_sticker(self.f@, i as int, (osp + 2) % 3) == col2);
                assert(corner_piece_spec(self.f@, i as int) == corner_match_from(col1, col2, 0));
                assert(corner_piece_spec(self.f@, i as int) == found);
            }
            cp[i] = corner_from_index(found);
            co[i] = o;
            i = i + 1;
        }
        // All eight slots identified; now rule out a doubled piece.
        let mut i: usize = 0;
        while i < 8
            invariant
                i <= 8,
                cp@.len() == 8,
                co@.len() == 8,
                forall|j: int| 0 <= j < 8 ==> #[trigger] corner_piece_spec(self.f@, j) < 8,
                forall|j: int|
                    0 <= j < 8 ==> corner_index(#[trigger] cp@[j]) == corner_piece_spec(
                        self.f@,
                        j,
                    ),
                forall|j: int|
                    0 <= j < 8 ==> #[trigger] co@[j] as int == corner_ori_spec(self.f@, j),
                forall|j1: int, j2: int|
                    0 <= j1 < i && 0 <= j2 < 8 && j1 != j2 ==> corner_piece_spec(self.f@, j1)
                        != corner_piece_spec(self.f@, j2),
            decreases 8 - i,
        {
            let mut j: usize = 0;
            while j < 8
                invariant
                    i < 8,
                    j <= 8,
                    cp@.len() == 8,
                    forall|t: int|
                        0 <= t < 8 ==> corner_index(#[trigger] cp@[t]) == corner_piece_spec(
                            self.f@,
                            t,
                        ),
                    forall|t: int|
                        0 <= t < j && t != i ==> corner_piece_spec(self.f@, i as int)
                            != corner_piece_spec(self.f@, t),
                decreases 8 - j,
            {
                if j != i && corner_to_index(cp[i]) == corner_to_index(cp[j]) {
                    proof {
                        assert(corner_piece_spec(self.f@, i as int) == corner_piece_spec(
                            self.f@,
                            j as int,
                        ));
                        assert(!corners_distinct(self.f@));
                    }
                    return Err(ErrorKind::MissingCorner);
                }
                j = j + 1;
            }
            i = i + 1;
        }
        proof {
            assert(corners_inferable(self.f@));
            assert(corners_distinct(self.f@));
        }
        // Edges, in the same way.
        let mut ep: [Edge; 12] = base.edge_permutation;
        let mut eo: [usize; 12] = base.edge_orientation;
        let mut i: usize = 0;
        while i < 12
            invariant
                i <= 12,
                ep@.len() == 12,
                eo@.len() == 12,
                corners_inferable(self.f@),
                corners_distinct(self.f@),
                forall|j: int| 0 <= j < i ==> #[trigger] edge_piece_spec(self.f@, j) < 12,
                forall|j: int|
                    0 <= j < i ==> edge_index(#[trigger] ep@[j]) == edge_piece_spec(self.f@, j),
                forall|j: int|
                    0 <= j < i ==> #[trigger] eo@[j] as int == edge_ori_spec(self.f@, j),
            decreases 12 - i,
        {
            let s0 = self.f[edge_facelet(i, 0)];
            let s1 = self.f[edge_facelet(i, 1)];
            proof {
                assert(edge_sticker(self.f@, i as int, 0) == s0);
                assert(edge_sticker(self.f@, i as int, 1) == s1);
            }
            let mut e: usize = 0;
            let mut found: usize = 12;
            let mut ori: usize = 0;
            while e < 12
                invariant
                    e <= 12,
                    found <= 12,
                    ori <= 1,
                    found == 12 ==> edge_match_from(s0, s1, 0) == edge_match_from(
                        s0,
                        s1,
                        e as int,
                    ),
                    found < 12 ==> edge_match_from(s0, s1, 0) == (found as int, ori as int),
                decreases 12 - e,
            {
                if found == 12 {
                    let cols = edge_colours(edge_from_index(e));
                    if cols[0] == s0 && cols[1] == s1 {
                        proof {
                            assert(edge_match_from(s0, s1, e as int) == (e as int, 0int));
                        }
                        found = e;
                        ori = 0;
                    } else if cols[0] == s1 && cols[1] == s0 {
                        proof {
                            assert(edge_match_from(s0, s1, e as int) == (e as int, 1int));
                        }
                        found = e;
                        ori = 1;
                    }
                }
                e = e + 1;
            }
            if found == 12 {
                proof {
                    assert(edge_piece_spec(self.f@, i as int) == 12);
                    assert(!edges_inferable(self.f@));
                }
                return Err(ErrorKind::MissingEdge);
            }
            proof {
                assert(edge_piece_spec(self.f@, i as int) == found);
                assert(edge_ori_spec(self.f@, i as int) == ori);
            }
            ep[i] = edge_from_index(found);
            eo[i] = ori;
            i = i + 1;
        }
        let mut i: usize = 0;
        while i < 12
            invariant
                i <= 12,
                ep@.len() == 12,
                eo@.len() == 12,
                corners_inferable(self.f@),
                corners_distinct(self.f@),
                forall|j: int| 0 <= j < 12 ==> #[trigger] edge_piece_spec(self.f@, j) < 12,
                forall|j: int|
                    0 <= j < 12 ==> edge_index(#[trigger] ep@[j]) == edge_piece_spec(self.f@, j),
                forall|j: int|
                    0 <= j < 12 ==> #[trigger] eo@[j] as int == edge_ori_spec(self.f@, j),
                forall|j1: int, j2: int|
                    0 <= j1 < i && 0 <= j2 < 12 && j1 != j2 ==> edge_piece_spec(self.f@, j1)
                        != edge_piece_spec(self.f@, j2),
            decreases 12 - i,
        {
            let mut j: usize = 0;
            while j < 12
                invariant
                    i < 12,
                    j <= 12,
                    ep@.len() == 12,
                    corners_inferable(self.f@),
                    corners_distinct(self.f@),
                    forall|t: int|
                        0 <= t < 12 ==> edge_index(#[trigger] ep@[t]) == edge_piece_spec(
                            self.f@,
                            t,
                        ),
                    forall|t: int|
                        0 <= t < j && t != i ==> edge_piece_spec(self.f@, i as int)
                            != edge_piece_spec(self.f@, t),
                decreases 12 - j,
            {
                if j != i && edge_to_index(ep[i]) == edge_to_index(ep[j]) {
                    proof {
                        assert(edge_piece_spec(self.f@, i as int) == edge_piece_spec(
                            self.f@,
                            j as int,
                        ));
                        assert(!edges_distinct(self.f@));
                    }
                    return Err(ErrorKind::MissingEdge);
                }
                j = j + 1;
            }
            i = i + 1;
        }
        let cc = CubieCube::new(cp, co, ep, eo);
        proof {
            assert forall|j: int| 0 <= j < 8 implies 0 <= #[trigger] corner_ori_spec(
                self.f@,
                j,
            ) < 3 by {
                assert(corner_piece_spec(self.f@, j) < 8);
            }
            assert forall|j: int| 0 <= j < 12 implies 0 <= #[trigger] edge_ori_spec(
                self.f@,
                j,
            ) < 2 by {
                lemma_edge_match_range(
                    edge_sticker(self.f@, j, 0),
                    edge_sticker(self.f@, j, 1),
                    0,
                );
            }
            assert(cc@.cp =~= cubie_of_face(self.f@).cp);
            assert(cc@.co =~= cubie_of_face(self.f@).co);
            assert(cc@.ep =~= cubie_of_face(self.f@).ep);
            assert(cc@.eo =~= cubie_of_face(self.f@).eo);
            assert(cc@ =~= cubie_of_face(self.f@));
        }
        Ok(cc)
    }
}

/// The 54 grid positions split into 24 corner stickers, 24 edge stickers
/// and 6 centres, with no overlaps.
pub proof fn lemma_positions_disjoint()
    ensures
        forall|i: int, k: int|
            0 <= i < 8 && 0 <= k < 3 ==> 0 <= #[trigger] corner_positions()[i][k] < 54,
        forall|i: int, k: int|
            0 <= i < 12 && 0 <= k < 2 ==> 0 <= #[trigger] edge_positions()[i][k] < 54,
        forall|i: int, k: int, i2: int, k2: int|
            0 <= i < 8 && 0 <= k < 3 && 0 <= i2 < 8 && 0 <= k2 < 3 && (i != i2 || k != k2)
                ==> #[trigger] corner_positions()[i][k] != #[trigger] corner_positions()[i2][k2],
        forall|i: int, k: int, i2: int, k2: int|
            0 <= i < 12 && 0 <= k < 2 && 0 <= i2 < 12 && 0 <= k2 < 2 && (i != i2 || k != k2)
                ==> #[trigger] edge_positions()[i][k] != #[trigger] edge_positions()[i2][k2],
        forall|i: int, k: int, i2: int, k2: int|
            0 <= i < 8 && 0 <= k < 3 && 0 <= i2 < 12 && 0 <= k2 < 2 ==> #[trigger] corner_positions()[i][k]
                != #[trigger] edge_positions()[i2][k2],
        forall|i: int, k: int, v: int|
            0 <= i < 8 && 0 <= k < 3 && 0 <= v < 6 ==> #[trigger] corner_positions()[i][k]
                != #[trigger] crate::defs::centre_position(v),
        forall|i: int, k: int, v: int|
            0 <= i < 12 && 0 <= k < 2 && 0 <= v < 6 ==> #[trigger] edge_positions()[i][k]
                != #[trigger] crate::defs::centre_position(v),
{
}

proof fn lemma_corner_first_ud(p: int)
    requires
        0 <= p < 8,
    ensures
        is_ud(corner_colour_seq(corner_at(p))[0]),
        !is_ud(corner_colour_seq(corner_at(p))[1]),
        !is_ud(corner_colour_seq(corner_at(p))[2]),
{
}

#[verifier::rlimit(60)]
proof fn lemma_corner_match_exact(p: int)
    requires
        0 <= p < 8,
    ensures
        corner_match_from(
            corner_colour_seq(corner_at(p))[1],
            corner_colour_seq(corner_at(p))[2],
            0,
        ) == p,
{
    reveal_with_fuel(corner_match_from, 10);
}

#[verifier::rlimit(60)]
proof fn lemma_edge_match_exact(e: int, o: int)
    requires
        0 <= e < 12,
        0 <= o < 2,
    ensures
        edge_match_from(
            edge_colour_seq(edge_at(e))[o],
            edge_colour_seq(edge_at(e))[1 - o],
            0,
        ) == (e, o),
{
    reveal_with_fuel(edge_match_from, 14);
}

/// Painting a cubie state onto the facelet grid and reading the stickers
/// back recovers the state exactly: every slot's orientation is found at
/// its U/D sticker, and the remaining colour pair names its piece
/// uniquely. With every legal facelet grid being the painting of the cube
/// it depicts, the facelet and cubie levels round-trip.
#[verifier::rlimit(100)]
pub proof fn lemma_face_round_trip(c: CubieSpec, face: Seq<Facelets>)
    requires
        c.ranges_ok(),
        face.len() == 54,
        forall|i: int, k: int|
            0 <= i < 8 && 0 <= k < 3 ==> face[corner_positions()[i][(k + c.co[i]) % 3]]
                == #[trigger] corner_colour_seq(corner_at(c.cp[i]))[k],
        forall|i: int, k: int|
            0 <= i < 12 && 0 <= k < 2 ==> face[edge_positions()[i][(k + c.eo[i]) % 2]]
                == #[trigger] edge_colour_seq(edge_at(c.ep[i]))[k],
    ensures
        cubie_of_face(face) == c,
{
    assert forall|i: int| 0 <= i < 8 implies corner_ori_spec(face, i) == c.co[i]
        && corner_piece_spec(face, i) == c.cp[i] by {
        let p = c.cp[i];
        let o = c.co[i];
        let cols = corner_colour_seq(corner_at(p));
        lemma_corner_first_ud(p);
        if o == 0 {
            assert(face[corner_positions()[i][(0 + c.co[i]) % 3]] == cols[0]);
            assert(face[corner_positions()[i][(1 + c.co[i]) % 3]] == cols[1]);
            assert(face[corner_positions()[i][(2 + c.co[i]) % 3]] == cols[2]);
            assert(corner_sticker(face, i, 0) == cols[0]);
            assert(corner_sticker(face, i, 1) == cols[1]);
            assert(corner_sticker(face, i, 2) == cols[2]);
            assert(corner_ori_spec(face, i) == 0);
        } else if o == 1 {
            assert(face[corner_positions()[i][(2 + c.co[i]) % 3]] == cols[2]);
            assert(face[corner_positions()[i][(0 + c.co[i]) % 3]] == cols[0]);
            assert(face[corner_positions()[i][(1 + c.co[i]) % 3]] == cols[1]);
            assert(corner_sticker(face, i, 0) == cols[2]);
            assert(corner_sticker(face, i, 1) == cols[0]);
            assert(corner_sticker(face, i, 2) == cols[1]);
            assert(corner_ori_spec(face, i) == 1);
        } else {
            assert(face[corner_positions()[i][(1 + c.co[i]) % 3]] == cols[1]);
            assert(face[corner_positions()[i][(2 + c.co[i]) % 3]] == cols[2]);
            assert(face[corner_positions()[i][(0 + c.co[i]) % 3]] == cols[0]);
            assert(corner_sticker(face, i, 0) == cols[1]);
            assert(corner_sticker(face, i, 1) == cols[2]);
            assert(corner_sticker(face, i, 2) == cols[0]);
            assert(corner_ori_spec(face, i) == 2);
        }
        assert(corner_sticker(face, i, (o + 1) % 3) == cols[1]);
        assert(corner_sticker(face, i, (o + 2) % 3) == cols[2]);
        lemma_corner_match_exact(p);
        assert(corner_piece_spec(face, i) == p);
    }
    assert forall|i: int| 0 <= i < 12 implies edge_ori_spec(face, i) == c.eo[i]
        && edge_piece_spec(face, i) == c.ep[i] by {
        let e = c.ep[i];
        let o = c.eo[i];
        let cols = edge_colour_seq(edge_at(e));
        if o == 0 {
            assert(face[edge_positions()[i][(0 + c.eo[i]) % 2]] == cols[0]);
            assert(face[edge_positions()[i][(1 + c.eo[i]) % 2]] == cols[1]);
            assert(edge_sticker(face, i, 0) == cols[0]);
            assert(edge_sticker(face, i, 1) == cols[1]);
        } else {
            assert(face[edge_positions()[i][(1 + c.eo[i]) % 2]] == cols[1]);
            assert(face[edge_positions()[i][(0 + c.eo[i]) % 2]] == cols[0]);
            assert(edge_sticker(face, i, 0) == cols[1]);
            assert(edge_sticker(face, i, 1) == cols[0]);
        }
        lemma_edge_match_exact(e, o);
        assert(edge_match_from(edge_sticker(face, i, 0), edge_sticker(face, i, 1), 0) == (
            e,
            o,
        ));
    }
    assert(cubie_of_face(face).cp =~= c.cp);
    assert(cubie_of_face(face).co =~= c.co);
    assert(cubie_of_face(face).ep =~= c.ep);
    assert(cubie_of_face(face).eo =~= c.eo);
    assert(cubie_of_face(face) =~= c);
}

impl CubieCube {
    /// Paints the facelet grid this cubie state shows: each slot's
    /// stickers carry its piece's colours, rotated by the slot's
    /// orientation, and each centre its face's colour.
    pub fn to_face_cube(self) -> (r: FaceCube)
        requires
            self@.ranges_ok(),
        ensures
            r.f@.len() == 54,
            forall|v: int| 0 <= v < 6 ==> facelet_index(#[trigger] r.f@[9 * v + 4]) == v,
            forall|i: int, k: int|
                0 <= i < 8 && 0 <= k < 3 ==> r.f@[corner_positions()[i][(k + self@.co[i])
                    % 3]] == #[trigger] corner_colour_seq(corner_at(self@.cp[i]))[k],
            forall|i: int, k: int|
                0 <= i < 12 && 0 <= k < 2 ==> r.f@[edge_positions()[i][(k + self@.eo[i])
                    % 2]] == #[trigger] edge_colour_seq(edge_at(self@.ep[i]))[k],
            cubie_of_face(r.f@) == self@,
    {
        proof {
            lemma_positions_disjoint();
        }
        let fc = FaceCube::reset();
        let mut f: [Facelets; 54] = fc.f;
        let mut i: usize = 0;
        while i < 8
            invariant
                i <= 8,
                self@.ranges_ok(),
                f@.len() == 54,
                forall|v: int| 0 <= v < 6 ==> facelet_index(f@[#[trigger] crate::defs::centre_position(v)]) == v,
                forall|j: int, k: int|
                    0 <= j < i && 0 <= k < 3 ==> f@[corner_positions()[j][(k + self@.co[j])
                        % 3]] == #[trigger] corner_colour_seq(corner_at(self@.cp[j]))[k],
            decreases 8 - i,
        {
            let ori = self.corner_orientation[i];
            let cols = corner_colours(self.corner_permutation[i]);
            proof {
                lemma_positions_disjoint();
                assert(self@.co[i as int] == self.corner_orientation@[i as int] as int);
                assert(self@.cp[i as int] == corner_index(self.corner_permutation@[i as int]));
                assert(corner_at(self@.cp[i as int]) == self.corner_permutation@[i as int]);
            }
            let mut k: usize = 0;
            while k < 3
                invariant
                    k <= 3,
                    i < 8,
                    self@.ranges_ok(),
                    f@.len() == 54,
                    ori == self.corner_orientation@[i as int],
                    ori as int == self@.co[i as int],
                    ori < 3,
                    cols@ == corner_colour_seq(corner_at(self@.cp[i as int])),
                    forall|v: int| 0 <= v < 6 ==> facelet_index(f@[#[trigger] crate::defs::centre_position(v)]) == v,
                    forall|j: int, k2: int|
                        0 <= j < i && 0 <= k2 < 3 ==> f@[corner_positions()[j][(k2
                            + self@.co[j]) % 3]] == #[trigger] corner_colour_seq(
                            corner_at(self@.cp[j]),
                        )[k2],
                    forall|k2: int|
                        0 <= k2 < k ==> f@[corner_positions()[i as int][(k2 + self@.co[i as int])
                            % 3]] == #[trigger] corner_colour_seq(
                            corner_at(self@.cp[i as int]),
                        )[k2],
                decreases 3 - k,
            {
                let pos = corner_facelet(i, (k + ori) % 3);
                proof {
                    lemma_positions_disjoint();
                }
                f[pos] = cols[k];
                k = k + 1;
            }
            i = i + 1;
        }
        let mut i: usize = 0;
        while i < 12
            invariant
                i <= 12,
                self@.ranges_ok(),
                f@.len() == 54,
                forall|v: int| 0 <= v < 6 ==> facelet_index(f@[#[trigger] crate::defs::centre_position(v)]) == v,
                forall|j: int, k: int|
                    0 <= j < 8 && 0 <= k < 3 ==> f@[corner_positions()[j][(k + self@.co[j])
                        % 3]] == #[trigger] corner_colour_seq(corner_at(self@.cp[j]))[k],
                forall|j: int, k: int|
                    0 <= j < i && 0 <= k < 2 ==> f@[edge_positions()[j][(k + self@.eo[j])
                        % 2]] == #[trigger] edge_colour_seq(edge_at(self@.ep[j]))[k],
            decreases 12 - i,
        {
            let ori = self.edge_orientation[i];
            let cols = edge_colours(self.edge_permutation[i]);
            proof {
                lemma_positions_disjoint();
                assert(self@.eo[i as int] == self.edge_orientation@[i as int] as int);
                assert(self@.ep[i as int] == edge_index(self.edge_permutation@[i as int]));
                assert(edge_at(self@.ep[i as int]) == self.edge_permutation@[i as int]);
            }
            let mut k: usize = 0;
            while k < 2
                invariant
                    k <= 2,
                    i < 12,
                    self@.ranges_ok(),
                    f@.len() == 54,
                    ori == self.edge_orientation@[i as int],
                    ori as int == self@.eo[i as int],
                    ori < 2,
                    cols@ == edge_colour_seq(edge_at(self@.ep[i as int])),
                    forall|v: int| 0 <= v < 6 ==> facelet_index(f@[#[trigger] crate::defs::centre_position(v)]) == v,
                    forall|j: int, k2: int|
                        0 <= j < 8 && 0 <= k2 < 3 ==> f@[corner_positions()[j][(k2
                            + self@.co[j]) % 3]] == #[trigger] corner_colour_seq(
                            corner_at(self@.cp[j]),
                        )[k2],
                    forall|j: int, k2: int|
                        0 <= j < i && 0 <= k2 < 2 ==> f@[edge_positions()[j][(k2 + self@.eo[j])
                            % 2]] == #[trigger] edge_colour_seq(edge_at(self@.ep[j]))[k2],
                    forall|k2: int|
                        0 <= k2 < k ==> f@[edge_positions()[i as int][(k2 + self@.eo[i as int])
                            % 2]] == #[trigger] edge_colour_seq(
                            edge_at(self@.ep[i as int]),
                        )[k2],
                decreases 2 - k,
            {
                let pos = edge_facelet(i, (k + ori) % 2);
                proof {
                    lemma_positions_disjoint();
                }
                f[pos] = cols[k];
                k = k + 1;
            }
            i = i + 1;
        }
        proof {
            assert forall|v: int| 0 <= v < 6 implies facelet_index(#[trigger] f@[9 * v + 4])
                == v by {
                assert(crate::defs::centre_position(v) == 9 * v + 4);
                assert(facelet_index(f@[crate::defs::centre_position(v)]) == v);
            }
            lemma_face_round_trip(self@, f@);
        }
        FaceCube { f }
    }
}

impl CubieCube {
    /// The validator's verdict as a message and a flag; the flag is true
    /// exactly when the cube is solvable, and the message names the first
    /// condition broken, in the validator's order.
    pub fn can_solve_matcher(self) -> (r: (String, bool))
        requires
            self@.ranges_ok(),
        ensures
            r.1 == crate::cubie::solvable(self@),
            crate::cubie::solvable(self@) ==> r.0@ == "Attempting solve..."@,
            !crate::cubie::corners_complete(self@) ==> r.0@ == "Not all corners exist."@,
            crate::cubie::corners_complete(self@) && !crate::cubie::edges_complete(self@)
                ==> r.0@ == "Not all edges exist."@,
            crate::cubie::corners_complete(self@) && crate::cubie::edges_complete(self@)
                && crate::cubie::co_sum(self@) % 3 != 0 ==> r.0@
                == "One corner should be twisted."@,
            crate::cubie::corners_complete(self@) && crate::cubie::edges_complete(self@)
                && crate::cubie::co_sum(self@) % 3 == 0 && crate::cubie::eo_sum(self@) % 2 != 0
                ==> r.0@ == "One edge should be flipped."@,
            crate::cubie::corners_complete(self@) && crate::cubie::edges_complete(self@)
                && crate::cubie::co_sum(self@) % 3 == 0 && crate::cubie::eo_sum(self@) % 2 == 0
                && crate::cubie::corner_parity_of(self@) != crate::cubie::edge_parity_of(self@)
                ==> r.0@ == "Two corners or edges should be exchanged."@,
    {
        let code = self.can_solve();
        if code == 0 {
            (String::from_str("Attempting solve..."), true)
        } else if code == 2 {
            (String::from_str("Not all edges exist."), false)
        } else if code == 3 {
            (String::from_str("One edge should be flipped."), false)
        } else if code == 4 {
            (String::from_str("Not all corners exist."), false)
        } else if code == 5 {
            (String::from_str("One corner should be twisted."), false)
        } else {
            (String::from_str("Two corners or edges should be exchanged."), false)
        }
    }
}

/// The one-letter string naming a colour.
fn facelet_letter(f: Facelets) -> (r: &'static str)
    ensures
        r@ =~= seq![facelet_char(f)],
{
    proof {
        reveal_strlit("U");
        reveal_strlit("R");
        reveal_strlit("F");
        reveal_strlit("D");
        reveal_strlit("L");
        reveal_strlit("B");
    }
    match f {
        Facelets::U => "U",
        Facelets::R => "R",
        Facelets::F => "F",
        Facelets::D => "D",
        Facelets::L => "L",
        Facelets::B => "B",
    }
}

} // verus!
