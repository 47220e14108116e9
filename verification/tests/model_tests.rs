//! Tests of the cubie model: moves, inverses, coordinates and the
//! reachability invariants.

use rubiks_solver::cubie::CubieCube;
use rubiks_solver::defs::Moves;
use rubiks_solver::physical::Cube;
use rubiks_solver::defs::Facelets;
use rubiks_solver::utility::{binomial, emod, factorial, r_cast};

const ALL_MOVES: [Moves; 18] = [
    Moves::U1,
    Moves::U2,
    Moves::U3,
    Moves::R1,
    Moves::R2,
    Moves::R3,
    Moves::F1,
    Moves::F2,
    Moves::F3,
    Moves::D1,
    Moves::D2,
    Moves::D3,
    Moves::L1,
    Moves::L2,
    Moves::L3,
    Moves::B1,
    Moves::B2,
    Moves::B3,
];

fn inverse(m: Moves) -> Moves {
    let i = rubiks_solver::defs::move_to_index(m);
    rubiks_solver::defs::move_from_index(3 * (i / 3) + 2 - (i % 3))
}

fn scrambled() -> CubieCube {
    let mut cc = CubieCube::reset();
    for m in [Moves::R1, Moves::U1, Moves::F3, Moves::D2, Moves::L1, Moves::B3, Moves::U2] {
        cc.movement(m);
    }
    cc
}

fn cubes_equal(a: &CubieCube, b: &CubieCube) -> bool {
    a.corner_permutation == b.corner_permutation
        && a.corner_orientation == b.corner_orientation
        && a.edge_permutation == b.edge_permutation
        && a.edge_orientation == b.edge_orientation
}

#[test]
fn factorial_values() {
    assert_eq!(factorial(0), 1);
    assert_eq!(factorial(1), 1);
    assert_eq!(factorial(5), 120);
    assert_eq!(factorial(8), 40320);
    assert_eq!(factorial(20), 2432902008176640000);
}

#[test]
fn binomial_values() {
    assert_eq!(binomial(12, 4), 495);
    assert_eq!(binomial(11, 3), 165);
    assert_eq!(binomial(4, 4), 1);
    assert_eq!(binomial(3, 4), 0);
    assert_eq!(binomial(-1, 2), 0);
    assert_eq!(binomial(7, -1), 0);
}

#[test]
fn emod_is_euclidean() {
    assert_eq!(emod(7, 3), 1);
    assert_eq!(emod(-1, 3), 2);
    assert_eq!(emod(-3, 3), 0);
    assert_eq!(emod(-7, 4), 1);
}

#[test]
fn r_cast_wraps() {
    assert_eq!(r_cast(-1, 12), 11);
    assert_eq!(r_cast(5, 12), 5);
}

#[test]
fn solved_cube_is_solved() {
    let cc = CubieCube::reset();
    assert!(cc.is_solved());
    assert_eq!(cc.twist(), 0);
    assert_eq!(cc.flip(), 0);
    assert_eq!(cc.udslice(), 0);
    assert_eq!(cc.edge4(), 0);
    assert_eq!(cc.edge8(), 0);
    assert_eq!(cc.corner(), 0);
    assert_eq!(cc.can_solve(), 0);
}

#[test]
fn reachable_states_keep_invariants() {
    // Orientation sums and parity equality hold after any move prefix.
    let mut cc = CubieCube::reset();
    for m in [Moves::R1, Moves::U2, Moves::F1, Moves::B3, Moves::L2, Moves::D1, Moves::R3] {
        cc.movement(m);
        let co: usize = cc.corner_orientation.iter().sum();
        let eo: usize = cc.edge_orientation.iter().sum();
        assert_eq!(co % 3, 0);
        assert_eq!(eo % 2, 0);
        assert_eq!(cc.corner_parity(), cc.edge_parity());
        assert_eq!(cc.can_solve(), 0);
    }
}

#[test]
fn move_then_inverse_is_identity() {
    // Applying m then its inverse returns the state exactly, for all 18.
    let base = scrambled();
    for &m in ALL_MOVES.iter() {
        let mut cc = base;
        cc.movement(m);
        cc.movement(inverse(m));
        assert!(cubes_equal(&cc, &base));
    }
}

#[test]
fn quarter_turn_four_times_is_identity() {
    let base = scrambled();
    for &m in [Moves::U1, Moves::R1, Moves::F1, Moves::D1, Moves::L1, Moves::B1].iter() {
        let mut cc = base;
        for _ in 0..4 {
            cc.movement(m);
        }
        assert!(cubes_equal(&cc, &base));
    }
}

#[test]
fn inverse_cube_composes_to_identity() {
    let base = scrambled();
    let inv = base.inverse_cubiecube();
    let mut cc = inv;
    cc.multiply(base);
    assert!(cc.is_solved());
    let mut cc2 = base;
    cc2.multiply(inv);
    assert!(cc2.is_solved());
}

#[test]
fn coordinate_setters_invert_getters() {
    for &t in [0usize, 1, 7, 100, 2186].iter() {
        let mut cc = CubieCube::reset();
        cc.set_twist(t);
        assert_eq!(cc.twist(), t);
    }
    for &f in [0usize, 1, 2, 1024, 2047].iter() {
        let mut cc = CubieCube::reset();
        cc.set_flip(f);
        assert_eq!(cc.flip(), f);
    }
    for u in 0..495usize {
        let mut cc = CubieCube::reset();
        cc.set_udslice(u);
        assert_eq!(cc.udslice(), u);
    }
    for e in 0..24usize {
        let mut cc = CubieCube::reset();
        cc.set_edge4(e);
        assert_eq!(cc.edge4(), e);
    }
    for &e in [0usize, 1, 5040, 40319].iter() {
        let mut cc = CubieCube::reset();
        cc.set_edge8(e);
        assert_eq!(cc.edge8(), e);
        let mut cc2 = CubieCube::reset();
        cc2.set_corner(e);
        assert_eq!(cc2.corner(), e);
    }
}

#[test]
fn validator_spots_flipped_edge() {
    let base = CubieCube::reset();
    let mut eo = base.edge_orientation;
    eo[0] = 1;
    eo[1] = 1;
    eo[2] = 1;
    let cc = CubieCube::new(
        base.corner_permutation,
        base.corner_orientation,
        base.edge_permutation,
        eo,
    );
    assert_eq!(cc.can_solve(), 3);
    let (_msg, ok) = cc.can_solve_matcher();
    assert!(!ok);
}

#[test]
fn validator_spots_twisted_corner() {
    let base = CubieCube::reset();
    let mut co = base.corner_orientation;
    co[0] = 1;
    let cc = CubieCube::new(
        base.corner_permutation,
        co,
        base.edge_permutation,
        base.edge_orientation,
    );
    assert_eq!(cc.can_solve(), 5);
}

#[test]
fn validator_spots_parity_mismatch() {
    let base = CubieCube::reset();
    let mut cp = base.corner_permutation;
    cp.swap(0, 1);
    let cc = CubieCube::new(
        cp,
        base.corner_orientation,
        base.edge_permutation,
        base.edge_orientation,
    );
    assert_eq!(cc.can_solve(), 6);
}

#[test]
fn validator_spots_missing_corner() {
    let base = CubieCube::reset();
    let mut cp = base.corner_permutation;
    cp[1] = cp[0];
    let cc = CubieCube::new(
        cp,
        base.corner_orientation,
        base.edge_permutation,
        base.edge_orientation,
    );
    assert_eq!(cc.can_solve(), 4);
}

#[test]
fn piece_view_matches_cubie_view() {
    // The slot-record cube and the array cube step through the same
    // algebra: the coordinates agree move for move.
    let mut pc = Cube::new();
    let mut cc = CubieCube::reset();
    pc.r();
    cc.movement_u(1);
    assert_eq!(pc.corner_orientation(), cc.twist());
    assert_eq!(pc.edge_orientation(), cc.flip());
    assert_eq!(pc.ud_slice(), cc.udslice());
    assert_eq!(pc.corner_permutation(), cc.corner());
    assert_eq!(pc.phase_two_edge_permutation(), cc.edge8());
    pc.f();
    pc.u();
    pc.b();
    pc.l();
    pc.d();
    cc.movement_u(2);
    cc.movement_u(0);
    cc.movement_u(5);
    cc.movement_u(4);
    cc.movement_u(3);
    assert_eq!(pc.corner_parity(), cc.corner_parity());
    assert_eq!(pc.edge_parity(), cc.edge_parity());
    assert_eq!(pc.corner_permutation(), cc.corner());
    assert_eq!(pc.edge_permutation() == 0, false);
}

#[test]
fn movement_f_turns_named_face() {
    let mut a = CubieCube::reset();
    a.movement_f(Facelets::R);
    let mut b = CubieCube::reset();
    b.movement(Moves::R1);
    assert!(cubes_equal(&a, &b));
}
