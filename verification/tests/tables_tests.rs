//! Tests of the precomputed tables: entries against direct cubie
//! computation, four-times-identity on coordinates, and the admissibility
//! check of the pruning tables.

use rubiks_solver::coord::CoordCube;
use rubiks_solver::cubie::CubieCube;
use rubiks_solver::defs::move_from_index;
use rubiks_solver::tables::{all_moves, check_prune_consistent, phase2_moves, Tables};

#[test]
fn move_table_entries_match_cubie_moves() {
    // Entry (c, m) equals the coordinate read from a real cubie cube
    // with coordinate c after move m.
    let tables = Tables::generate();
    for c in [0usize, 1, 17, 500, 2186] {
        for m in 0..18 {
            let mut cc = CubieCube::reset();
            cc.set_twist(c);
            cc.movement(move_from_index(m));
            assert_eq!(tables.twist_move[c][m] as usize, cc.twist());
        }
    }
    for c in [0usize, 3, 1024, 2047] {
        for m in 0..18 {
            let mut cc = CubieCube::reset();
            cc.set_flip(c);
            cc.movement(move_from_index(m));
            assert_eq!(tables.flip_move[c][m] as usize, cc.flip());
        }
    }
    for c in [0usize, 100, 494] {
        for m in 0..18 {
            let mut cc = CubieCube::reset();
            cc.set_udslice(c);
            cc.movement(move_from_index(m));
            assert_eq!(tables.udslice_move[c][m] as usize, cc.udslice());
        }
    }
    for c in [0usize, 7, 40319] {
        for m in 0..18 {
            let mut cc = CubieCube::reset();
            cc.set_corner(c);
            cc.movement(move_from_index(m));
            assert_eq!(tables.corner_move[c][m] as usize, cc.corner());
        }
    }
}

#[test]
fn phase2_tables_use_sentinels_outside_phase2() {
    let tables = Tables::generate();
    for c in [0usize, 5, 23] {
        for m in 0..18 {
            let axis = m / 3;
            let power = m % 3;
            let p2 = axis == 0 || axis == 3 || power == 1;
            assert_eq!(tables.edge4_move[c][m] == 0xFFFF, !p2);
            if p2 {
                let mut cc = CubieCube::reset();
                cc.set_edge4(c);
                cc.movement(move_from_index(m));
                assert_eq!(tables.edge4_move[c][m] as usize, cc.edge4());
            }
        }
    }
}

#[test]
fn quarter_turns_cycle_coordinates_four_times() {
    // table[...][m] iterated four times is the identity on coordinates.
    let tables = Tables::generate();
    for m in [0usize, 3, 6, 9, 12, 15] {
        for c in 0..2187usize {
            let mut v = c;
            for _ in 0..4 {
                v = tables.twist_move[v][m] as usize;
            }
            assert_eq!(v, c);
        }
        for c in 0..2048usize {
            let mut v = c;
            for _ in 0..4 {
                v = tables.flip_move[v][m] as usize;
            }
            assert_eq!(v, c);
        }
        for c in 0..495usize {
            let mut v = c;
            for _ in 0..4 {
                v = tables.udslice_move[v][m] as usize;
            }
            assert_eq!(v, c);
        }
    }
}

#[test]
fn coordinate_cube_steps_by_table() {
    let tables = Tables::generate();
    let mut cc = CubieCube::reset();
    let mut coord = CoordCube::from_cubie_cube(&cc);
    // A phase-1 quarter turn of R touches a phase-2-only table: the
    // stepped cube must refuse and stay put.
    let before = coord;
    assert!(!coord.movement(rubiks_solver::defs::Moves::R1, &tables));
    assert_eq!(coord.twist, before.twist);
    // A half turn is a phase-2 move: all six coordinates step.
    assert!(coord.movement(rubiks_solver::defs::Moves::R2, &tables));
    cc.movement(rubiks_solver::defs::Moves::R2);
    let direct = CoordCube::from_cubie_cube(&cc);
    assert_eq!(coord.twist, direct.twist);
    assert_eq!(coord.flip, direct.flip);
    assert_eq!(coord.udslice, direct.udslice);
    assert_eq!(coord.edge4, direct.edge4);
    assert_eq!(coord.edge8, direct.edge8);
    assert_eq!(coord.corner, direct.corner);
}

#[test]
fn phase2_pruning_tables_are_admissible() {
    // The checked conditions imply that no shorter move sequence can
    // reach the goal pair than the stored bound allows.
    let tables = Tables::generate();
    let moves = phase2_moves();
    assert!(check_prune_consistent(
        &tables.edge4_edge8_prune,
        &tables.edge4_move,
        &tables.edge8_move,
        &moves,
        24,
        40320,
    ));
    assert!(check_prune_consistent(
        &tables.edge4_corner_prune,
        &tables.edge4_move,
        &tables.corner_move,
        &moves,
        24,
        40320,
    ));
}

#[test]
fn phase1_pruning_tables_are_admissible() {
    let tables = Tables::generate();
    let moves = all_moves();
    assert!(check_prune_consistent(
        &tables.udslice_twist_prune,
        &tables.udslice_move,
        &tables.twist_move,
        &moves,
        495,
        2187,
    ));
    assert!(check_prune_consistent(
        &tables.udslice_flip_prune,
        &tables.udslice_move,
        &tables.flip_move,
        &moves,
        495,
        2048,
    ));
}

#[test]
fn prune_goal_cell_is_zero() {
    let tables = Tables::generate();
    assert_eq!(tables.udslice_twist_prune.get(0, 0), 0);
    assert_eq!(tables.udslice_flip_prune.get(0, 0), 0);
    assert_eq!(tables.edge4_edge8_prune.get(0, 0), 0);
    assert_eq!(tables.edge4_corner_prune.get(0, 0), 0);
}
