//! End-to-end solver tests: the move and pruning tables are built from
//! scratch, then scrambles of growing difficulty are solved and each
//! answer is checked by replaying it.

use rubiks_solver::cubie::CubieCube;
use rubiks_solver::defs::{move_from_index, move_to_index, Moves};
use rubiks_solver::facelet::ErrorKind;
use rubiks_solver::solver::{moves_to_string, solve};
use rubiks_solver::tables::Tables;

const SOLVED: &str = "UUUUUUUUURRRRRRRRRFFFFFFFFFDDDDDDDDDLLLLLLLLLBBBBBBBBB";

fn chars_of(s: &str) -> Vec<char> {
    s.chars().collect()
}

fn apply_all(cc: &mut CubieCube, moves: &[Moves]) {
    for &m in moves {
        cc.movement(m);
    }
}

fn string_of(cc: &CubieCube) -> String {
    cc.to_face_cube().to_string()
}

fn inverse(m: Moves) -> Moves {
    let i = move_to_index(m);
    move_from_index(3 * (i / 3) + 2 - (i % 3))
}

#[test]
fn solved_input_needs_no_moves() {
    let tables = Tables::generate();
    let r = solve(&chars_of(SOLVED), 30, &tables).unwrap();
    assert_eq!(r.len(), 0);
    assert_eq!(moves_to_string(&r), "");
}

#[test]
fn single_move_scrambles_take_one_move() {
    let tables = Tables::generate();
    for i in 0..18 {
        let m = move_from_index(i);
        let mut cc = CubieCube::reset();
        cc.movement(m);
        let r = solve(&chars_of(&string_of(&cc)), 30, &tables).unwrap();
        assert_eq!(r.len(), 1);
        assert_eq!(r[0], inverse(m));
        apply_all(&mut cc, &r);
        assert!(cc.is_solved());
    }
}

#[test]
fn r_scramble_solves_with_r_anticlockwise() {
    let tables = Tables::generate();
    let mut cc = CubieCube::reset();
    cc.movement(Moves::R1);
    let r = solve(&chars_of(&string_of(&cc)), 30, &tables).unwrap();
    assert_eq!(r, vec![Moves::R3]);
    assert_eq!(moves_to_string(&r), "R'");
}

#[test]
fn four_move_scramble_solves_in_four() {
    // R U R' U' inverts in at most four moves.
    let tables = Tables::generate();
    let mut cc = CubieCube::reset();
    apply_all(&mut cc, &[Moves::R1, Moves::U1, Moves::R3, Moves::U3]);
    let r = solve(&chars_of(&string_of(&cc)), 30, &tables).unwrap();
    assert!(r.len() <= 4);
    apply_all(&mut cc, &r);
    assert!(cc.is_solved());
}

#[test]
fn validator_errors_reach_the_caller() {
    let tables = Tables::generate();
    assert!(matches!(
        solve(&chars_of("UUU"), 30, &tables),
        Err(ErrorKind::WrongLength)
    ));
    let mut s = chars_of(SOLVED);
    s[3] = 'q';
    assert!(matches!(
        solve(&s, 30, &tables),
        Err(ErrorKind::InvalidCharacter)
    ));
    let mut s2 = chars_of(SOLVED);
    s2[0] = 'R';
    assert!(matches!(
        solve(&s2, 30, &tables),
        Err(ErrorKind::DuplicateColour) | Err(ErrorKind::MissingColour)
    ));
}

#[test]
fn flipped_edge_is_rejected_before_search() {
    let tables = Tables::generate();
    let base = CubieCube::reset();
    let mut eo = base.edge_orientation;
    eo[0] = 1;
    let cc = CubieCube::new(
        base.corner_permutation,
        base.corner_orientation,
        base.edge_permutation,
        eo,
    );
    let s = string_of(&cc);
    assert!(matches!(
        solve(&chars_of(&s), 30, &tables),
        Err(ErrorKind::BadEdgeFlip)
    ));
}

#[test]
fn twisted_corner_is_rejected_before_search() {
    let tables = Tables::generate();
    let base = CubieCube::reset();
    let mut co = base.corner_orientation;
    co[0] = 1;
    let cc = CubieCube::new(
        base.corner_permutation,
        co,
        base.edge_permutation,
        base.edge_orientation,
    );
    let s = string_of(&cc);
    assert!(matches!(
        solve(&chars_of(&s), 30, &tables),
        Err(ErrorKind::BadCornerTwist)
    ));
}

#[test]
fn swapped_corners_are_rejected_before_search() {
    let tables = Tables::generate();
    let base = CubieCube::reset();
    let mut cp = base.corner_permutation;
    cp.swap(0, 1);
    let cc = CubieCube::new(
        cp,
        base.corner_orientation,
        base.edge_permutation,
        base.edge_orientation,
    );
    let s = string_of(&cc);
    assert!(matches!(
        solve(&chars_of(&s), 30, &tables),
        Err(ErrorKind::ParityMismatch)
    ));
}

#[test]
fn medium_scramble_solves_and_replays() {
    let tables = Tables::generate();
    let mut cc = CubieCube::reset();
    apply_all(
        &mut cc,
        &[
            Moves::R1,
            Moves::U2,
            Moves::F3,
            Moves::L1,
            Moves::D1,
            Moves::B2,
            Moves::U1,
            Moves::R3,
        ],
    );
    let r = solve(&chars_of(&string_of(&cc)), 30, &tables).unwrap();
    assert!(r.len() <= 30);
    apply_all(&mut cc, &r);
    assert!(cc.is_solved());
}

#[test]
fn hard_scramble_solves_within_thirty_moves() {
    // The superflip needs at least eighteen (in fact twenty) moves; the
    // two-phase search must still come in under thirty.
    let tables = Tables::generate();
    let seq = [
        Moves::U1,
        Moves::R2,
        Moves::F1,
        Moves::B1,
        Moves::R1,
        Moves::B2,
        Moves::R1,
        Moves::U2,
        Moves::L1,
        Moves::B2,
        Moves::R1,
        Moves::U3,
        Moves::D3,
        Moves::R2,
        Moves::F1,
        Moves::R3,
        Moves::L1,
        Moves::B2,
        Moves::U2,
        Moves::F2,
    ];
    let mut cc = CubieCube::reset();
    apply_all(&mut cc, &seq);
    let r = solve(&chars_of(&string_of(&cc)), 30, &tables).unwrap();
    assert!(r.len() <= 30);
    apply_all(&mut cc, &r);
    assert!(cc.is_solved());
}

#[test]
fn rendering_follows_standard_notation() {
    let ms = vec![Moves::R1, Moves::U2, Moves::F3, Moves::B1, Moves::L3, Moves::D2];
    assert_eq!(moves_to_string(&ms), "R U2 F' B L' D2");
}
