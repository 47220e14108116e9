//! Identifiers for the cube's pieces and colours, and the fixed tables that
//! tie them to the 54-facelet grid: which facelet positions belong to each
//! corner and edge slot, and which colours each physical piece carries.
//!
//! The facelet grid is indexed 0..54 in the block order U, R, F, D, L, B;
//! each 9-facelet block reads row-major from the top left of its face.

use vstd::prelude::*;

verus! {

/// The eight corner pieces, in the fixed order that all permutation
/// arithmetic depends on.
#[derive(Clone, Copy, Debug, PartialEq, Eq, Structural)]
pub enum Corner {
    URF,
    UFL,
    ULB,
    UBR,
    DFR,
    DLF,
    DBL,
    DRB,
}

/// The twelve edge pieces, in the fixed order that all permutation
/// arithmetic depends on. The last four (FR, FL, BL, BR) form the UD slice.
#[derive(Clone, Copy, Debug, PartialEq, Eq, Structural)]
pub enum Edge {
    UR,
    UF,
    UL,
    UB,
    DR,
    DF,
    DL,
    DB,
    FR,
    FL,
    BL,
    BR,
}

/// The six face colours, named after the centre facelet that carries each.
#[derive(Clone, Copy, Debug, PartialEq, Eq, Structural)]
pub enum Facelets {
    U,
    R,
    F,
    D,
    L,
    B,
}

/// The rank of a corner in the fixed corner order.
pub open spec fn corner_index(c: Corner) -> int {
    match c {
        Corner::URF => 0,
        Corner::UFL => 1,
        Corner::ULB => 2,
        Corner::UBR => 3,
        Corner::DFR => 4,
        Corner::DLF => 5,
        Corner::DBL => 6,
        Corner::DRB => 7,
    }
}

/// The rank of an edge in the fixed edge order.
pub open spec fn edge_index(e: Edge) -> int {
    match e {
        Edge::UR => 0,
        Edge::UF => 1,
        Edge::UL => 2,
        Edge::UB => 3,
        Edge::DR => 4,
        Edge::DF => 5,
        Edge::DL => 6,
        Edge::DB => 7,
        Edge::FR => 8,
        Edge::FL => 9,
        Edge::BL => 10,
        Edge::BR => 11,
    }
}

/// The rank of a colour in the face order U, R, F, D, L, B.
pub open spec fn facelet_index(f: Facelets) -> int {
    match f {
        Facelets::U => 0,
        Facelets::R => 1,
        Facelets::F => 2,
        Facelets::D => 3,
        Facelets::L => 4,
        Facelets::B => 5,
    }
}

/// The corner with the given rank.
pub open spec fn corner_at(i: int) -> Corner {
    if i == 0 {
        Corner::URF
    } else if i == 1 {
        Corner::UFL
    } else if i == 2 {
        Corner::ULB
    } else if i == 3 {
        Corner::UBR
    } else if i == 4 {
        Corner::DFR
    } else if i == 5 {
        Corner::DLF
    } else if i == 6 {
        Corner::DBL
    } else {
        Corner::DRB
    }
}

/// The edge with the given rank.
pub open spec fn edge_at(i: int) -> Edge {
    if i == 0 {
        Edge::UR
    } else if i == 1 {
        Edge::UF
    } else if i == 2 {
        Edge::UL
    } else if i == 3 {
        Edge::UB
    } else if i == 4 {
        Edge::DR
    } else if i == 5 {
        Edge::DF
    } else if i == 6 {
        Edge::DL
    } else if i == 7 {
        Edge::DB
    } else if i == 8 {
        Edge::FR
    } else if i == 9 {
        Edge::FL
    } else if i == 10 {
        Edge::BL
    } else {
        Edge::BR
    }
}

pub fn corner_to_index(c: Corner) -> (r: usize)
    ensures
        r == corner_index(c),
{
    match c {
        Corner::URF => 0,
        Corner::UFL => 1,
        Corner::ULB => 2,
        Corner::UBR => 3,
        Corner::DFR => 4,
        Corner::DLF => 5,
        Corner::DBL => 6,
        Corner::DRB => 7,
    }
}

pub fn corner_from_index(i: usize) -> (c: Corner)
    requires
        i < 8,
    ensures
        corner_index(c) == i,
        c == corner_at(i as int),
{
    match i {
        0 => Corner::URF,
        1 => Corner::UFL,
        2 => Corner::ULB,
        3 => Corner::UBR,
        4 => Corner::DFR,
        5 => Corner::DLF,
        6 => Corner::DBL,
        _ => Corner::DRB,
    }
}

pub fn edge_to_index(e: Edge) -> (r: usize)
    ensures
        r == edge_index(e),
{
    match e {
        Edge::UR => 0,
        Edge::UF => 1,
        Edge::UL => 2,
        Edge::UB => 3,
        Edge::DR => 4,
        Edge::DF => 5,
        Edge::DL => 6,
        Edge::DB => 7,
        Edge::FR => 8,
        Edge::FL => 9,
        Edge::BL => 10,
        Edge::BR => 11,
    }
}

pub fn edge_from_index(i: usize) -> (e: Edge)
    requires
        i < 12,
    ensures
        edge_index(e) == i,
        e == edge_at(i as int),
{
    match i {
        0 => Edge::UR,
        1 => Edge::UF,
        2 => Edge::UL,
        3 => Edge::UB,
        4 => Edge::DR,
        5 => Edge::DF,
        6 => Edge::DL,
        7 => Edge::DB,
        8 => Edge::FR,
        9 => Edge::FL,
        10 => Edge::BL,
        _ => Edge::BR,
    }
}

pub fn facelet_to_index(f: Facelets) -> (r: usize)
    ensures
        r == facelet_index(f),
{
    match f {
        Facelets::U => 0,
        Facelets::R => 1,
        Facelets::F => 2,
        Facelets::D => 3,
        Facelets::L => 4,
        Facelets::B => 5,
    }
}

pub fn facelet_from_index(i: usize) -> (f: Facelets)
    requires
        i < 6,
    ensures
        facelet_index(f) == i,
{
    match i {
        0 => Facelets::U,
        1 => Facelets::R,
        2 => Facelets::F,
        3 => Facelets::D,
        4 => Facelets::L,
        _ => Facelets::B,
    }
}

/// The letter naming each colour in the facelet string format.
pub open spec fn facelet_char(f: Facelets) -> char {
    match f {
        Facelets::U => 'U',
        Facelets::R => 'R',
        Facelets::F => 'F',
        Facelets::D => 'D',
        Facelets::L => 'L',
        Facelets::B => 'B',
    }
}

pub fn facelet_to_char(f: Facelets) -> (c: char)
    ensures
        c == facelet_char(f),
{
    match f {
        Facelets::U => 'U',
        Facelets::R => 'R',
        Facelets::F => 'F',
        Facelets::D => 'D',
        Facelets::L => 'L',
        Facelets::B => 'B',
    }
}

pub fn facelet_from_char(c: char) -> (r: Option<Facelets>)
    ensures
        match r {
            Some(f) => c == facelet_char(f),
            None => forall|f: Facelets| c != facelet_char(f),
        },
{
    let r = match c {
        'U' => Some(Facelets::U),
        'R' => Some(Facelets::R),
        'F' => Some(Facelets::F),
        'D' => Some(Facelets::D),
        'L' => Some(Facelets::L),
        'B' => Some(Facelets::B),
        _ => None,
    };
    proof {
        if r is None {
            assert forall|f: Facelets| c != facelet_char(f) by {
                match f {
                    Facelets::U => assert(facelet_char(f) == 'U'),
                    Facelets::R => assert(facelet_char(f) == 'R'),
                    Facelets::F => assert(facelet_char(f) == 'F'),
                    Facelets::D => assert(facelet_char(f) == 'D'),
                    Facelets::L => assert(facelet_char(f) == 'L'),
                    Facelets::B => assert(facelet_char(f) == 'B'),
                }
            }
        }
    }
    r
}

/// Facelet positions of each corner slot: slot i shows its three stickers
/// at grid positions corner_positions()[i], clockwise from the U/D sticker.
pub open spec fn corner_positions() -> Seq<Seq<int>> {
    seq![
        seq![8int, 9int, 20int],
        seq![6int, 18int, 38int],
        seq![0int, 36int, 47int],
        seq![2int, 45int, 11int],
        seq![29int, 26int, 15int],
        seq![27int, 44int, 24int],
        seq![33int, 53int, 42int],
        seq![35int, 17int, 51int],
    ]
}

/// Facelet positions of each edge slot: slot i shows its two stickers at
/// grid positions edge_positions()[i].
pub open spec fn edge_positions() -> Seq<Seq<int>> {
    seq![
        seq![5int, 10int],
        seq![7int, 19int],
        seq![3int, 37int],
        seq![1int, 46int],
        seq![32int, 16int],
        seq![28int, 25int],
        seq![30int, 43int],
        seq![34int, 52int],
        seq![23int, 12int],
        seq![21int, 41int],
        seq![50int, 39int],
        seq![48int, 14int],
    ]
}

/// The three colours of a corner piece, clockwise from its U or D sticker.
pub open spec fn corner_colour_seq(c: Corner) -> Seq<Facelets> {
    match c {
        Corner::URF => seq![Facelets::U, Facelets::R, Facelets::F],
        Corner::UFL => seq![Facelets::U, Facelets::F, Facelets::L],
        Corner::ULB => seq![Facelets::U, Facelets::L, Facelets::B],
        Corner::UBR => seq![Facelets::U, Facelets::B, Facelets::R],
        Corner::DFR => seq![Facelets::D, Facelets::F, Facelets::R],
        Corner::DLF => seq![Facelets::D, Facelets::L, Facelets::F],
        Corner::DBL => seq![Facelets::D, Facelets::B, Facelets::L],
        Corner::DRB => seq![Facelets::D, Facelets::R, Facelets::B],
    }
}

/// The two colours of an edge piece.
pub open spec fn edge_colour_seq(e: Edge) -> Seq<Facelets> {
    match e {
        Edge::UR => seq![Facelets::U, Facelets::R],
        Edge::UF => seq![Facelets::U, Facelets::F],
        Edge::UL => seq![Facelets::U, Facelets::L],
        Edge::UB => seq![Facelets::U, Facelets::B],
        Edge::DR => seq![Facelets::D, Facelets::R],
        Edge::DF => seq![Facelets::D, Facelets::F],
        Edge::DL => seq![Facelets::D, Facelets::L],
        Edge::DB => seq![Facelets::D, Facelets::B],
        Edge::FR => seq![Facelets::F, Facelets::R],
        Edge::FL => seq![Facelets::F, Facelets::L],
        Edge::BL => seq![Facelets::B, Facelets::L],
        Edge::BR => seq![Facelets::B, Facelets::R],
    }
}

/// The three colours of corner c, clockwise from its U or D sticker.
pub fn corner_colours(c: Corner) -> (r: [Facelets; 3])
    ensures
        r@ == corner_colour_seq(c),
{
    let r: [Facelets; 3] = match c {
        Corner::URF => [Facelets::U, Facelets::R, Facelets::F],
        Corner::UFL => [Facelets::U, Facelets::F, Facelets::L],
        Corner::ULB => [Facelets::U, Facelets::L, Facelets::B],
        Corner::UBR => [Facelets::U, Facelets::B, Facelets::R],
        Corner::DFR => [Facelets::D, Facelets::F, Facelets::R],
        Corner::DLF => [Facelets::D, Facelets::L, Facelets::F],
        Corner::DBL => [Facelets::D, Facelets::B, Facelets::L],
        Corner::DRB => [Facelets::D, Facelets::R, Facelets::B],
    };
    proof {
        assert(r@ =~= corner_colour_seq(c));
    }
    r
}

/// The two colours of edge e.
pub fn edge_colours(e: Edge) -> (r: [Facelets; 2])
    ensures
        r@ == edge_colour_seq(e),
{
    let r: [Facelets; 2] = match e {
        Edge::UR => [Facelets::U, Facelets::R],
        Edge::UF => [Facelets::U, Facelets::F],
        Edge::UL => [Facelets::U, Facelets::L],
        Edge::UB => [Facelets::U, Facelets::B],
        Edge::DR => [Facelets::D, Facelets::R],
        Edge::DF => [Facelets::D, Facelets::F],
        Edge::DL => [Facelets::D, Facelets::L],
        Edge::DB => [Facelets::D, Facelets::B],
        Edge::FR => [Facelets::F, Facelets::R],
        Edge::FL => [Facelets::F, Facelets::L],
        Edge::BL => [Facelets::B, Facelets::L],
        Edge::BR => [Facelets::B, Facelets::R],
    };
    proof {
        assert(r@ =~= edge_colour_seq(e));
    }
    r
}

/// The grid position of sticker k of corner slot i.
pub fn corner_facelet(i: usize, k: usize) -> (r: usize)
    requires
        i < 8,
        k < 3,
    ensures
        r == corner_positions()[i as int][k as int],
        r < 54,
{
    let row: [usize; 3] = match i {
        0 => [8, 9, 20],
        1 => [6, 18, 38],
        2 => [0, 36, 47],
        3 => [2, 45, 11],
        4 => [29, 26, 15],
        5 => [27, 44, 24],
        6 => [33, 53, 42],
        _ => [35, 17, 51],
    };
    row[k]
}

/// The grid position of sticker k of edge slot i.
pub fn edge_facelet(i: usize, k: usize) -> (r: usize)
    requires
        i < 12,
        k < 2,
    ensures
        r == edge_positions()[i as int][k as int],
        r < 54,
{
    let row: [usize; 2] = match i {
        0 => [5, 10],
        1 => [7, 19],
        2 => [3, 37],
        3 => [1, 46],
        4 => [32, 16],
        5 => [28, 25],
        6 => [30, 43],
        7 => [34, 52],
        8 => [23, 12],
        9 => [21, 41],
        10 => [50, 39],
        _ => [48, 14],
    };
    row[k]
}

/// The grid position of the centre facelet of face f.
pub open spec fn centre_position(f: int) -> int {
    9 * f + 4
}

/// The eighteen face moves: each of the six faces turned a quarter
/// clockwise (1), a half (2) or a quarter anticlockwise (3).
#[derive(Clone, Copy, Debug, PartialEq, Eq, Structural)]
pub enum Moves {
    U1,
    U2,
    U3,
    R1,
    R2,
    R3,
    F1,
    F2,
    F3,
    D1,
    D2,
    D3,
    L1,
    L2,
    L3,
    B1,
    B2,
    B3,
}

/// The rank of a move: axis * 3 + (power - 1), with the axes ordered
/// U, R, F, D, L, B.
pub open spec fn move_index(m: Moves) -> int {
    match m {
        Moves::U1 => 0,
        Moves::U2 => 1,
        Moves::U3 => 2,
        Moves::R1 => 3,
        Moves::R2 => 4,
        Moves::R3 => 5,
        Moves::F1 => 6,
        Moves::F2 => 7,
        Moves::F3 => 8,
        Moves::D1 => 9,
        Moves::D2 => 10,
        Moves::D3 => 11,
        Moves::L1 => 12,
        Moves::L2 => 13,
        Moves::L3 => 14,
        Moves::B1 => 15,
        Moves::B2 => 16,
        Moves::B3 => 17,
    }
}

/// The face a move turns (0..6, in the order U, R, F, D, L, B).
pub open spec fn move_axis(m: int) -> int {
    m / 3
}

/// How many quarter turns a move applies (1..4).
pub open spec fn move_power(m: int) -> int {
    m % 3 + 1
}

/// The move undoing move m: same axis, complementary power.
pub open spec fn inverse_move(m: int) -> int {
    3 * (m / 3) + 2 - (m % 3)
}

pub fn move_to_index(m: Moves) -> (r: usize)
    ensures
        r == move_index(m),
        r < 18,
{
    match m {
        Moves::U1 => 0,
        Moves::U2 => 1,
        Moves::U3 => 2,
        Moves::R1 => 3,
        Moves::R2 => 4,
        Moves::R3 => 5,
        Moves::F1 => 6,
        Moves::F2 => 7,
        Moves::F3 => 8,
        Moves::D1 => 9,
        Moves::D2 => 10,
        Moves::D3 => 11,
        Moves::L1 => 12,
        Moves::L2 => 13,
        Moves::L3 => 14,
        Moves::B1 => 15,
        Moves::B2 => 16,
        Moves::B3 => 17,
    }
}

pub fn move_from_index(i: usize) -> (m: Moves)
    requires
        i < 18,
    ensures
        move_index(m) == i,
{
    match i {
        0 => Moves::U1,
        1 => Moves::U2,
        2 => Moves::U3,
        3 => Moves::R1,
        4 => Moves::R2,
        5 => Moves::R3,
        6 => Moves::F1,
        7 => Moves::F2,
        8 => Moves::F3,
        9 => Moves::D1,
        10 => Moves::D2,
        11 => Moves::D3,
        12 => Moves::L1,
        13 => Moves::L2,
        14 => Moves::L3,
        15 => Moves::B1,
        16 => Moves::B2,
        _ => Moves::B3,
    }
}

} // verus!
