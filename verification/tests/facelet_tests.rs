//! Tests of the facelet grid: parsing, validation order, and the
//! round trip between the facelet and cubie levels.

use rubiks_solver::cubie::CubieCube;
use rubiks_solver::defs::Moves;
use rubiks_solver::facelet::{ErrorKind, FaceCube};

const SOLVED: &str = "UUUUUUUUURRRRRRRRRFFFFFFFFFDDDDDDDDDLLLLLLLLLBBBBBBBBB";

fn chars_of(s: &str) -> Vec<char> {
    s.chars().collect()
}

fn cubes_equal(a: &CubieCube, b: &CubieCube) -> bool {
    a.corner_permutation == b.corner_permutation
        && a.corner_orientation == b.corner_orientation
        && a.edge_permutation == b.edge_permutation
        && a.edge_orientation == b.edge_orientation
}

#[test]
fn solved_string_parses_to_solved_cube() {
    let fc = FaceCube::new(chars_of(SOLVED)).unwrap();
    let cc = fc.to_cubie_cube().unwrap();
    assert!(cc.is_solved());
    assert_eq!(fc.to_string(), SOLVED);
}

#[test]
fn wrong_length_is_rejected() {
    assert!(matches!(
        FaceCube::new(chars_of("UUU")),
        Err(ErrorKind::WrongLength)
    ));
    let long: String = SOLVED.to_string() + "U";
    assert!(matches!(
        FaceCube::new(chars_of(&long)),
        Err(ErrorKind::WrongLength)
    ));
}

#[test]
fn invalid_character_is_rejected() {
    let mut s = chars_of(SOLVED);
    s[10] = 'X';
    assert!(matches!(
        FaceCube::new(s),
        Err(ErrorKind::InvalidCharacter)
    ));
}

#[test]
fn colour_counts_are_checked() {
    // Swapping one sticker's colour makes one colour tenfold and another
    // eightfold.
    let mut s = chars_of(SOLVED);
    s[0] = 'R';
    let fc = FaceCube::new(s).unwrap();
    assert!(matches!(fc.check_colours(), Err(ErrorKind::MissingColour)));
    let fc2 = FaceCube::new(chars_of(SOLVED)).unwrap();
    assert!(fc2.check_colours().is_ok());
}

#[test]
fn unreadable_corner_is_rejected() {
    // Making a corner's three stickers all non-U/D colours leaves no
    // orientation to read.
    let mut s = chars_of(SOLVED);
    s[8] = 'R';
    let fc = FaceCube::new(s).unwrap();
    assert!(matches!(
        fc.to_cubie_cube(),
        Err(ErrorKind::MissingCorner)
    ));
}

#[test]
fn facelet_round_trip_on_solved() {
    let cc = CubieCube::reset();
    let fc = cc.to_face_cube();
    let back = fc.to_cubie_cube().unwrap();
    assert!(cubes_equal(&cc, &back));
    assert_eq!(fc.to_string(), SOLVED);
}

#[test]
fn facelet_round_trip_on_scrambles() {
    // from_cubie then to_cubie returns every tried legal state exactly,
    // so the rendered string round-trips too.
    let mut cc = CubieCube::reset();
    for m in [
        Moves::R1,
        Moves::U1,
        Moves::F3,
        Moves::D2,
        Moves::L1,
        Moves::B3,
        Moves::U2,
        Moves::F1,
        Moves::R2,
    ] {
        cc.movement(m);
        let fc = cc.to_face_cube();
        let back = fc.to_cubie_cube().unwrap();
        assert!(cubes_equal(&cc, &back));
        let fc2 = back.to_face_cube();
        assert_eq!(fc.to_string(), fc2.to_string());
    }
}

#[test]
fn r_scramble_renders_known_string() {
    let mut cc = CubieCube::reset();
    cc.movement(Moves::R1);
    let fc = cc.to_face_cube();
    assert_eq!(
        fc.to_string(),
        "UUFUUFUUFRRRRRRRRRFFDFFDFFDDDBDDBDDBLLLLLLLLLUBBUBBUBB"
    );
}
