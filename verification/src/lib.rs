//! A two-phase solver for the 3x3x3 Rubik's cube.
//!
//! The cube is modelled at three levels: a 54-facelet colour grid
//! ([`facelet::FaceCube`]), a permutation-plus-orientation state over the
//! corner and edge pieces ([`cubie::CubieCube`]), and a tuple of six integer
//! coordinates ([`coord::CoordCube`]). Precomputed move and pruning tables
//! ([`tables::Tables`]) drive an iterative-deepening search
//! ([`solver::solve`]) that first brings the cube into the subgroup generated
//! by U, D, F2, B2, L2, R2 and then finishes the solve inside it.

pub mod coord;
pub mod cubie;
pub mod facelet;
pub mod laws;
pub mod defs;
pub mod physical;
pub mod solver;
pub mod tables;
pub mod utility;
