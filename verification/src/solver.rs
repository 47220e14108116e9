//! The two-phase search driver. Phase 1 brings the cube into the subgroup
//! generated by U, D, F2, B2, L2, R2 by zeroing twist, flip and UD-slice;
//! phase 2 finishes the solve inside that subgroup. Every candidate the
//! search emits is replayed on the cubie cube and returned only if it
//! really solves it, so the solver's answer does not depend on the tables
//! being right.

use vstd::prelude::*;
use crate::cubie::CubieCube;
use crate::cubie::CubieSpec;
use crate::cubie::apply_move;
use crate::cubie::apply_moves;
use crate::cubie::co_sum;
use crate::cubie::eo_sum;
use crate::cubie::corner_parity_of;
use crate::cubie::edge_parity_of;
use crate::cubie::lemma_wf_surjective;
use crate::cubie::lemma_solved_coords;
use crate::coord::CoordCube;
use crate::defs::Moves;
use crate::defs::move_index;
use crate::defs::move_from_index;
use crate::defs::move_to_index;
use crate::defs::Facelets;
use crate::defs::facelet_char;
use crate::facelet::ErrorKind;
use crate::facelet::FaceCube;
use crate::facelet::valid_facelet_char;
use crate::facelet::colours_ok;
use crate::facelet::first_bad_colour;
use crate::facelet::colour_count;
use crate::facelet::corners_inferable;
use crate::facelet::corners_distinct;
use crate::facelet::edges_inferable;
use crate::facelet::edges_distinct;
use crate::facelet::cubie_of_face;
use crate::facelet::face_of_chars;
use crate::tables::Tables;
use crate::tables::tbl;

verus! {

/// The ranks of a move sequence.
pub open spec fn moves_ints(ms: Seq<Moves>) -> Seq<int> {
    Seq::new(ms.len(), |i: int| move_index(ms[i]))
}

/// Appending one move to a sequence composes its effect on the state.
pub proof fn lemma_apply_moves_snoc(x: CubieSpec, s: Seq<int>, m: int)
    ensures
        apply_moves(x, s.push(m)) == apply_move(apply_moves(x, s), m),
    decreases s.len(),
{
    if s.len() == 0 {
        assert(s.push(m).drop_first() =~= s);
        assert(s.push(m)[0] == m);
        assert(apply_moves(x, s) == x);
        assert(apply_moves(apply_move(x, m), s) == apply_move(x, m));
    } else {
        assert(s.push(m).drop_first() =~= s.drop_first().push(m));
        assert(s.push(m)[0] == s[0]);
        lemma_apply_moves_snoc(apply_move(x, s[0]), s.drop_first(), m);
        assert(apply_moves(x, s.push(m)) == apply_moves(
            apply_move(x, s[0]),
            s.drop_first().push(m),
        ));
        assert(apply_moves(x, s) == apply_moves(apply_move(x, s[0]), s.drop_first()));
    }
}

/// Replays a move sequence on a cubie cube.
fn apply_path(cc0: &CubieCube, path: &Vec<Moves>) -> (r: CubieCube)
    requires
        cc0@.ranges_ok(),
    ensures
        r@ == apply_moves(cc0@, moves_ints(path@)),
        r@.ranges_ok(),
{
    let mut cc = *cc0;
    let mut i: usize = 0;
    proof {
        assert(moves_ints(path@.subrange(0, 0)) =~= Seq::<int>::empty());
    }
    while i < path.len()
        invariant
            i <= path@.len(),
            cc0@.ranges_ok(),
            cc@.ranges_ok(),
            cc@ == apply_moves(cc0@, moves_ints(path@.subrange(0, i as int))),
        decreases path@.len() - i,
    {
        let ghost pre = moves_ints(path@.subrange(0, i as int));
        cc.movement(path[i]);
        proof {
            lemma_apply_moves_snoc(cc0@, pre, move_index(path@[i as int]));
            assert(moves_ints(path@.subrange(0, i + 1)) =~= pre.push(
                move_index(path@[i as int]),
            ));
        }
        i = i + 1;
    }
    proof {
        assert(path@.subrange(0, path@.len() as int) =~= path@);
    }
    cc
}

/// Whether applying this move sequence to the cube solves it.
fn is_solution(cc0: &CubieCube, path: &Vec<Moves>) -> (r: bool)
    requires
        cc0@.ranges_ok(),
    ensures
        r == (apply_moves(cc0@, moves_ints(path@)) == CubieSpec::solved()),
{
    let cc = apply_path(cc0, path);
    cc.is_solved()
}

/// A fresh copy of the move list built so far.
fn copy_moves(path: &Vec<Moves>) -> (r: Vec<Moves>)
    ensures
        r@ == path@,
{
    let mut r: Vec<Moves> = Vec::new();
    let mut i: usize = 0;
    while i < path.len()
        invariant
            i <= path@.len(),
            r@ == path@.subrange(0, i as int),
        decreases path@.len() - i,
    {
        r.push(path[i]);
        proof {
            assert(path@.subrange(0, i + 1) =~= path@.subrange(0, i as int).push(
                path@[i as int],
            ));
        }
        i = i + 1;
    }
    proof {
        assert(path@.subrange(0, path@.len() as int) =~= path@);
    }
    r
}

/// Whether a face may be turned after the previous one: never the same
/// face twice, and of an opposite pair only the canonical order.
fn axis_allowed(axis: usize, last_axis: usize) -> bool
    requires
        axis < 6,
{
    last_axis >= 6 || (axis != last_axis && last_axis != axis + 3)
}

/// Phase-2 depth-first search: from the given phase-2 coordinates, look
/// for at most depth_left phase-2 moves that zero all three. A candidate
/// is accepted only after replaying the whole move list on the original
/// cube shows it solved.
fn phase2_search(
    cc0: &CubieCube,
    path: &mut Vec<Moves>,
    e4: usize,
    e8: usize,
    co: usize,
    depth_left: usize,
    last_axis: usize,
    tables: &Tables,
) -> (r: Option<Vec<Moves>>)
    requires
        cc0@.ranges_ok(),
        tables.wf(),
        e4 < 24,
        e8 < 40320,
        co < 40320,
        old(path)@.len() + depth_left <= 64,
    ensures
        final(path)@ == old(path)@,
        match r {
            Some(ms) => apply_moves(cc0@, moves_ints(ms@)) == CubieSpec::solved()
                && ms@.len() <= old(path)@.len() + depth_left,
            None => true,
        },
        e4 == 0 && e8 == 0 && co == 0 && apply_moves(cc0@, moves_ints(old(path)@))
            == CubieSpec::solved() ==> r is Some,
    decreases depth_left,
{
    if e4 == 0 && e8 == 0 && co == 0 {
        if is_solution(cc0, path) {
            return Some(copy_moves(path));
        }
        return None;
    }
    if depth_left == 0 {
        return None;
    }
    proof {
        assert(e4 * 40320 + co < 24 * 40320) by (nonlinear_arith)
            requires
                e4 < 24,
                co < 40320,
        ;
        assert(e4 * 40320 + e8 < 24 * 40320) by (nonlinear_arith)
            requires
                e4 < 24,
                e8 < 40320,
        ;
    }
    let h_corner = tables.edge4_corner_prune.get(e4, co);
    let h_edge = tables.edge4_edge8_prune.get(e4, e8);
    let h = if h_corner > h_edge {
        h_corner
    } else {
        h_edge
    };
    if h != 0xFF && (h as usize) > depth_left {
        return None;
    }
    if h == 0xFF {
        return None;
    }
    let mut axis: usize = 0;
    while axis < 6
        invariant
            axis <= 6,
            cc0@.ranges_ok(),
            tables.wf(),
            e4 < 24,
            e8 < 40320,
            co < 40320,
            depth_left >= 1,
            path@.len() + depth_left <= 64,
            path@ == old(path)@,
        decreases 6 - axis,
    {
        if axis_allowed(axis, last_axis) {
            let mut power: usize = 1;
            while power < 4
                invariant
                    1 <= power <= 4,
                    axis < 6,
                    cc0@.ranges_ok(),
                    tables.wf(),
                    e4 < 24,
                    e8 < 40320,
                    co < 40320,
                    depth_left >= 1,
                    path@.len() + depth_left <= 64,
                    path@ == old(path)@,
                decreases 4 - power,
            {
                if axis == 0 || axis == 3 || power == 2 {
                    let m_idx = axis * 3 + power - 1;
                    proof {
                        assert(crate::tables::is_phase2_move(m_idx as int));
                        assert(tbl(tables.edge4_move@, e4 as int, m_idx as int) < 24);
                        assert(tbl(tables.edge8_move@, e8 as int, m_idx as int) < 40320);
                        assert(tbl(tables.corner_move@, co as int, m_idx as int) < 40320);
                    }
                    let ne4 = tables.edge4_move[e4][m_idx] as usize;
                    let ne8 = tables.edge8_move[e8][m_idx] as usize;
                    let nco = tables.corner_move[co][m_idx] as usize;
                    let mv = move_from_index(m_idx);
                    let ghost saved = path@;
                    path.push(mv);
                    let res = phase2_search(
                        cc0,
                        path,
                        ne4,
                        ne8,
                        nco,
                        depth_left - 1,
                        axis,
                        tables,
                    );
                    path.pop();
                    proof {
                        assert(path@ =~= saved);
                    }
                    if res.is_some() {
                        return res;
                    }
                }
                power = power + 1;
            }
        }
        axis = axis + 1;
    }
    None
}

/// Phase-1 depth-first search for maneuvers of exactly `remaining` more
/// moves that zero twist, flip and UD-slice; each such maneuver seeds a
/// phase-2 search over budgets up to budget2.
fn phase1_search(
    cc0: &CubieCube,
    path: &mut Vec<Moves>,
    tw: usize,
    fl: usize,
    ud: usize,
    remaining: usize,
    budget2: usize,
    last_axis: usize,
    tables: &Tables,
) -> (r: Option<Vec<Moves>>)
    requires
        cc0@.ranges_ok(),
        tables.wf(),
        tw < 2187,
        fl < 2048,
        ud < 495,
        old(path)@.len() + remaining + budget2 <= 64,
    ensures
        final(path)@ == old(path)@,
        match r {
            Some(ms) => apply_moves(cc0@, moves_ints(ms@)) == CubieSpec::solved()
                && ms@.len() <= old(path)@.len() + remaining + budget2,
            None => true,
        },
        remaining == 0 && tw == 0 && fl == 0 && ud == 0 && apply_moves(
            cc0@,
            moves_ints(old(path)@),
        ) == CubieSpec::solved() ==> r is Some,
    decreases remaining,
{
    if remaining == 0 {
        if tw == 0 && fl == 0 && ud == 0 {
            // Seed phase 2 by replaying the phase-1 prefix on the
            // original cube.
            let cc1 = apply_path(cc0, path);
            let e4 = cc1.edge4();
            let e8 = cc1.edge8();
            let co = cc1.corner();
            proof {
                if cc1@ == CubieSpec::solved() {
                    lemma_solved_coords();
                }
            }
            let first = phase2_search(cc0, path, e4, e8, co, 0, last_axis, tables);
            if first.is_some() {
                return first;
            }
            // A prefix that already solves the cube would have made the
            // budget-0 call succeed.
            let mut b2: usize = 1;
            while b2 <= budget2
                invariant
                    1 <= b2 <= budget2 + 1,
                    cc0@.ranges_ok(),
                    tables.wf(),
                    e4 < 24,
                    e8 < 40320,
                    co < 40320,
                    path@.len() + budget2 <= 64,
                    path@ == old(path)@,
                    !(e4 == 0 && e8 == 0 && co == 0 && apply_moves(
                        cc0@,
                        moves_ints(old(path)@),
                    ) == CubieSpec::solved()),
                    cc1@ == apply_moves(cc0@, moves_ints(old(path)@)),
                    e4 == crate::cubie::edge4_of(cc1@),
                    e8 == crate::cubie::edge8_of(cc1@),
                    co == crate::cubie::corner_of(cc1@),
                decreases budget2 + 1 - b2,
            {
                let res = phase2_search(cc0, path, e4, e8, co, b2, last_axis, tables);
                if res.is_some() {
                    return res;
                }
                b2 = b2 + 1;
            }
            proof {
                if apply_moves(cc0@, moves_ints(old(path)@)) == CubieSpec::solved() {
                    lemma_solved_coords();
                    assert(false);
                }
            }
        }
        return None;
    }
    proof {
        assert(ud * 2187 + tw < 495 * 2187) by (nonlinear_arith)
            requires
                ud < 495,
                tw < 2187,
        ;
        assert(ud * 2048 + fl < 495 * 2048) by (nonlinear_arith)
            requires
                ud < 495,
                fl < 2048,
        ;
    }
    if tw == 0 && fl == 0 && ud == 0 {
        // Already in the subgroup: a longer phase-1 maneuver from here
        // would only repeat what shorter seeds cover.
        return None;
    }
    let h_twist = tables.udslice_twist_prune.get(ud, tw);
    let h_flip = tables.udslice_flip_prune.get(ud, fl);
    let h = if h_twist > h_flip {
        h_twist
    } else {
        h_flip
    };
    if h == 0xFF || (h as usize) > remaining {
        return None;
    }
    let mut axis: usize = 0;
    while axis < 6
        invariant
            axis <= 6,
            cc0@.ranges_ok(),
            tables.wf(),
            tw < 2187,
            fl < 2048,
            ud < 495,
            remaining >= 1,
            path@.len() + remaining + budget2 <= 64,
            path@ == old(path)@,
        decreases 6 - axis,
    {
        if axis_allowed(axis, last_axis) {
            let mut power: usize = 1;
            while power < 4
                invariant
                    1 <= power <= 4,
                    axis < 6,
                    cc0@.ranges_ok(),
                    tables.wf(),
                    tw < 2187,
                    fl < 2048,
                    ud < 495,
                    remaining >= 1,
                    path@.len() + remaining + budget2 <= 64,
                    path@ == old(path)@,
                decreases 4 - power,
            {
                if remaining == 1 && (axis == 0 || axis == 3 || power == 2) {
                    // A maneuver ending in a phase-2 move was already in
                    // the subgroup one move earlier.
                    power = power + 1;
                    continue;
                }
                let m_idx = axis * 3 + power - 1;
                proof {
                    assert(tbl(tables.twist_move@, tw as int, m_idx as int) < 2187);
                    assert(tbl(tables.flip_move@, fl as int, m_idx as int) < 2048);
                    assert(tbl(tables.udslice_move@, ud as int, m_idx as int) < 495);
                }
                let ntw = tables.twist_move[tw][m_idx] as usize;
                let nfl = tables.flip_move[fl][m_idx] as usize;
                let nud = tables.udslice_move[ud][m_idx] as usize;
                let mv = move_from_index(m_idx);
                let ghost saved = path@;
                path.push(mv);
                let res = phase1_search(
                    cc0,
                    path,
                    ntw,
                    nfl,
                    nud,
                    remaining - 1,
                    budget2,
                    axis,
                    tables,
                );
                path.pop();
                proof {
                    assert(path@ =~= saved);
                }
                if res.is_some() {
                    return res;
                }
                power = power + 1;
            }
        }
        axis = axis + 1;
    }
    None
}

/// The first thing wrong with a facelet string, checked in the fixed
/// validation order; None when the string describes a solvable cube.
pub open spec fn first_violation(s: Seq<char>) -> Option<ErrorKind> {
    if s.len() != 54 {
        Some(ErrorKind::WrongLength)
    } else if exists|i: int| 0 <= i < 54 && !valid_facelet_char(#[trigger] s[i]) {
        Some(ErrorKind::InvalidCharacter)
    } else {
        let face = face_of_chars(s);
        if !colours_ok(face) {
            if colour_count(face, first_bad_colour(face)) > 9 {
                Some(ErrorKind::DuplicateColour)
            } else {
                Some(ErrorKind::MissingColour)
            }
        } else if !(corners_inferable(face) && corners_distinct(face)) {
            Some(ErrorKind::MissingCorner)
        } else if !(edges_inferable(face) && edges_distinct(face)) {
            Some(ErrorKind::MissingEdge)
        } else {
            let cub = cubie_of_face(face);
            if co_sum(cub) % 3 != 0 {
                Some(ErrorKind::BadCornerTwist)
            } else if eo_sum(cub) % 2 != 0 {
                Some(ErrorKind::BadEdgeFlip)
            } else if corner_parity_of(cub) != edge_parity_of(cub) {
                Some(ErrorKind::ParityMismatch)
            } else {
                None
            }
        }
    }
}

/// Solves a cube given as its 54-letter facelet string. Returns the move
/// list of a solution of at most max_depth moves, or the first reason the
/// string is not a solvable cube, or NoSolution when the budget is too
/// small. A solved cube yields the empty move list. Budgets above thirty
/// are capped at thirty: a solvable cube needs no more, and the returned
/// list stays within the caller's bound either way.
pub fn solve(facelets: &Vec<char>, max_depth: usize, tables: &Tables) -> (r: Result<
    Vec<Moves>,
    ErrorKind,
>)
    requires
        tables.wf(),
    ensures
        match r {
            Ok(ms) => {
                &&& first_violation(facelets@) is None
                &&& apply_moves(cubie_of_face(face_of_chars(facelets@)), moves_ints(ms@))
                    == CubieSpec::solved()
                &&& ms@.len() <= max_depth
                &&& cubie_of_face(face_of_chars(facelets@)) == CubieSpec::solved()
                    ==> ms@.len() == 0
            },
            Err(e) => {
                &&& (e == ErrorKind::NoSolution ==> first_violation(facelets@) is None)
                &&& (e != ErrorKind::NoSolution ==> first_violation(facelets@) == Some(e))
            },
        },
        first_violation(facelets@) is None && cubie_of_face(face_of_chars(facelets@))
            == CubieSpec::solved() ==> r is Ok,
{
    let fc = match FaceCube::new(copy_chars(facelets)) {
        Ok(fc) => fc,
        Err(e) => {
            return Err(e);
        },
    };
    proof {
        assert forall|i: int| 0 <= i < 54 implies valid_facelet_char(
            #[trigger] facelets@[i],
        ) by {
            assert(facelet_char(fc.f@[i]) == facelets@[i]);
            match fc.f@[i] {
                Facelets::U => {},
                Facelets::R => {},
                Facelets::F => {},
                Facelets::D => {},
                Facelets::L => {},
                Facelets::B => {},
            }
        }
        assert forall|i: int| 0 <= i < 54 implies fc.f@[i] == face_of_chars(facelets@)[i] by {
            assert(facelet_char(fc.f@[i]) == facelets@[i]);
            match fc.f@[i] {
                Facelets::U => {},
                Facelets::R => {},
                Facelets::F => {},
                Facelets::D => {},
                Facelets::L => {},
                Facelets::B => {},
            }
        }
        assert(fc.f@ =~= face_of_chars(facelets@));
    }
    match fc.check_colours() {
        Ok(()) => {},
        Err(e) => {
            return Err(e);
        },
    }
    let cc = match fc.to_cubie_cube() {
        Ok(cc) => cc,
        Err(e) => {
            return Err(e);
        },
    };
    let code = cc.can_solve();
    proof {
        lemma_wf_surjective(cc@);
        assert(crate::cubie::corners_complete(cc@));
        assert(crate::cubie::edges_complete(cc@));
    }
    if code == 5 {
        return Err(ErrorKind::BadCornerTwist);
    }
    if code == 3 {
        return Err(ErrorKind::BadEdgeFlip);
    }
    if code == 6 {
        return Err(ErrorKind::ParityMismatch);
    }
    // All pieces are present and the sums balance: the cube is solvable.
    if cc.is_solved() {
        let empty: Vec<Moves> = Vec::new();
        proof {
            assert(moves_ints(empty@) =~= Seq::<int>::empty());
        }
        return Ok(empty);
    }
    let coord = CoordCube::from_cubie_cube(&cc);
    let cap: usize = if max_depth > 30 {
        30
    } else {
        max_depth
    };
    // First look for a shortest solution among small totals, then fall
    // back to the first solution that any phase-1 maneuver length up to
    // twelve yields within the full budget.
    let mut total: usize = 1;
    while total <= 5 && total <= cap
        invariant
            1 <= total <= 6,
            cap <= 30,
            cap <= max_depth,
            tables.wf(),
            cc@.wf(),
            coord.twist < 2187,
            coord.flip < 2048,
            coord.udslice < 495,
            first_violation(facelets@) is None,
            cc@ == cubie_of_face(face_of_chars(facelets@)),
            cc@ != CubieSpec::solved(),
        decreases 6 - total,
    {
        let mut n1: usize = 0;
        while n1 <= total
            invariant
                n1 <= total + 1,
                total <= 5,
                total <= cap,
                cap <= 30,
                cap <= max_depth,
                tables.wf(),
                cc@.wf(),
                coord.twist < 2187,
                coord.flip < 2048,
                coord.udslice < 495,
                first_violation(facelets@) is None,
                cc@ == cubie_of_face(face_of_chars(facelets@)),
                cc@ != CubieSpec::solved(),
            decreases total + 1 - n1,
        {
            let mut path: Vec<Moves> = Vec::new();
            let res = phase1_search(
                &cc,
                &mut path,
                coord.twist,
                coord.flip,
                coord.udslice,
                n1,
                total - n1,
                7,
                tables,
            );
            if let Some(ms) = res {
                return Ok(ms);
            }
            n1 = n1 + 1;
        }
        total = total + 1;
    }
    let mut n1: usize = 0;
    while n1 <= 12 && n1 <= cap
        invariant
            n1 <= 13,
            cap <= 30,
            cap <= max_depth,
            tables.wf(),
            cc@.wf(),
            coord.twist < 2187,
            coord.flip < 2048,
            coord.udslice < 495,
            first_violation(facelets@) is None,
            cc@ == cubie_of_face(face_of_chars(facelets@)),
            cc@ != CubieSpec::solved(),
        decreases 13 - n1,
    {
        let mut path: Vec<Moves> = Vec::new();
        let res = phase1_search(
            &cc,
            &mut path,
            coord.twist,
            coord.flip,
            coord.udslice,
            n1,
            cap - n1,
            7,
            tables,
        );
        if let Some(ms) = res {
            return Ok(ms);
        }
        n1 = n1 + 1;
    }
    Err(ErrorKind::NoSolution)
}

/// A fresh copy of the facelet characters.
fn copy_chars(s: &Vec<char>) -> (r: Vec<char>)
    ensures
        r@ == s@,
{
    let mut r: Vec<char> = Vec::new();
    let mut i: usize = 0;
    while i < s.len()
        invariant
            i <= s@.len(),
            r@ == s@.subrange(0, i as int),
        decreases s@.len() - i,
    {
        r.push(s[i]);
        proof {
            assert(s@.subrange(0, i + 1) =~= s@.subrange(0, i as int).push(s@[i as int]));
        }
        i = i + 1;
    }
    proof {
        assert(s@.subrange(0, s@.len() as int) =~= s@);
    }
    r
}

/// The letter naming the face a move of rank m turns.
pub open spec fn face_char(a: int) -> char {
    if a == 0 {
        'U'
    } else if a == 1 {
        'R'
    } else if a == 2 {
        'F'
    } else if a == 3 {
        'D'
    } else if a == 4 {
        'L'
    } else {
        'B'
    }
}

/// The notation for one move: its face letter alone for a clockwise
/// quarter, with "2" for a half turn, with "'" for an anticlockwise
/// quarter.
pub open spec fn move_word(m: int) -> Seq<char> {
    if m % 3 == 0 {
        seq![face_char(m / 3)]
    } else if m % 3 == 1 {
        seq![face_char(m / 3), '2']
    } else {
        seq![face_char(m / 3), '\'']
    }
}

/// The rendering of a move list: the moves' words in application order,
/// joined by single spaces.
pub open spec fn rendered(ms: Seq<Moves>) -> Seq<char>
    decreases ms.len(),
{
    if ms.len() == 0 {
        Seq::empty()
    } else if ms.len() == 1 {
        move_word(move_index(ms[0]))
    } else {
        rendered(ms.drop_last()) + seq![' '] + move_word(move_index(ms.last()))
    }
}

/// The one-letter string naming a face.
fn face_letter(a: usize) -> (r: &'static str)
    requires
        a < 6,
    ensures
        r@ =~= seq![face_char(a as int)],
{
    proof {
        reveal_strlit("U");
        reveal_strlit("R");
        reveal_strlit("F");
        reveal_strlit("D");
        reveal_strlit("L");
        reveal_strlit("B");
    }
    match a {
        0 => "U",
        1 => "R",
        2 => "F",
        3 => "D",
        4 => "L",
        _ => "B",
    }
}

/// Renders a move list in standard notation: the face letter, then "2"
/// for a half turn or "'" for an anticlockwise quarter, single spaces in
/// between.
pub fn moves_to_string(moves: &Vec<Moves>) -> (r: String)
    ensures
        r@ == rendered(moves@),
{
    let mut out = String::new();
    let mut i: usize = 0;
    proof {
        assert(moves@.subrange(0, 0) =~= Seq::<Moves>::empty());
    }
    while i < moves.len()
        invariant
            i <= moves@.len(),
            out@ == rendered(moves@.subrange(0, i as int)),
        decreases moves@.len() - i,
    {
        let ghost pre = moves@.subrange(0, i as int);
        let ghost start = out@;
        if i > 0 {
            proof {
                reveal_strlit(" ");
            }
            out.append(" ");
        }
        let idx = move_to_index(moves[i]);
        out.append(face_letter(idx / 3));
        let power = idx % 3;
        if power == 1 {
            proof {
                reveal_strlit("2");
            }
            out.append("2");
        }
        if power == 2 {
            proof {
                reveal_strlit("'");
            }
            out.append("'");
        }
        proof {
            let m = moves@[i as int];
            let w = move_word(move_index(m));
            assert(moves@.subrange(0, i + 1) =~= pre.push(m));
            if i == 0 {
                assert(pre.push(m).len() == 1);
                assert(pre.push(m)[0] == m);
                assert(out@ =~= start + w);
                assert(rendered(pre.push(m)) == w);
                assert(start =~= Seq::<char>::empty());
            } else {
                assert(pre.push(m).drop_last() =~= pre);
                assert(pre.push(m).last() == m);
                assert(rendered(pre.push(m)) == rendered(pre) + seq![' '] + w);
                assert(out@ =~= start + seq![' '] + w);
            }
            assert(out@ =~= rendered(moves@.subrange(0, i + 1)));
        }
        i = i + 1;
    }
    proof {
        assert(moves@.subrange(0, moves@.len() as int) =~= moves@);
    }
    out
}

} // verus!
