//! The laws of the move algebra, stated and proved once for all states:
//! what any move sequence preserves, and how moves undo each other.

use vstd::prelude::*;
use crate::cubie::CubieSpec;
use crate::cubie::apply_axis;
use crate::cubie::apply_move;
use crate::cubie::apply_moves;
use crate::cubie::generator_spec;
use crate::cubie::co_sum;
use crate::cubie::eo_sum;
use crate::cubie::corner_parity_of;
use crate::cubie::edge_parity_of;
use crate::cubie::lemma_mult_injective;
use crate::cubie::twist_of;
use crate::cubie::flip_of;
use crate::cubie::twist_digits;
use crate::cubie::flip_digits;
use crate::defs::move_axis;
use crate::defs::move_power;
use crate::defs::inverse_move;
use crate::tables::Tables;
use crate::tables::tbl;
use crate::tables::twist_state;
use crate::tables::flip_state;

verus! {

/// What every physical cube satisfies: well-formed slots, a corner-twist
/// sum divisible by three, an even edge-flip sum, and equal corner and
/// edge parity.
pub open spec fn physical_invariant(s: CubieSpec) -> bool {
    &&& s.wf()
    &&& co_sum(s) % 3 == 0
    &&& eo_sum(s) % 2 == 0
    &&& corner_parity_of(s) == edge_parity_of(s)
}

/// Every generator cube is well-formed.
pub proof fn lemma_generator_wf(axis: int)
    ensures
        generator_spec(axis).wf(),
{
}

/// The solved cube satisfies the physical invariant.
pub proof fn lemma_solved_invariant()
    ensures
        physical_invariant(CubieSpec::solved()),
{
    let s = CubieSpec::solved();
    assert(co_sum(s) == 0);
    assert(eo_sum(s) == 0);
    assert(corner_parity_of(s) == 0) by {
        reveal_with_fuel(crate::cubie::inv_count, 10);
        reveal_with_fuel(crate::cubie::count_gt, 10);
    }
    assert(edge_parity_of(s) == 0) by {
        reveal_with_fuel(crate::cubie::inv_count, 14);
        reveal_with_fuel(crate::cubie::count_gt, 14);
    }
}

/// Multiplying by one generator preserves the physical invariant: the
/// orientation changes of a face turn cancel modulo 3 and 2, and one
/// quarter turn flips corner and edge parity together.
proof fn lemma_generator_preserves_invariant(x: CubieSpec, axis: int)
    requires
        physical_invariant(x),
        0 <= axis < 6,
    ensures
        physical_invariant(CubieSpec::mult(x, generator_spec(axis))),
{
    let g = generator_spec(axis);
    let y = CubieSpec::mult(x, g);
    lemma_mult_injective(x, g);
    lemma_mod3_sum(x, axis);
    lemma_mod2_sum(x, axis);
    lemma_parity_flip(x, axis);
}

/// The corner-orientation sum of a product stays divisible by three:
/// the generator reindexes the old orientations (its slot map is a
/// permutation) and adds its own, whose sum is a multiple of three.

proof fn lemma_mod3_sum(x: CubieSpec, axis: int)
    requires
        x.ranges_ok(),
        co_sum(x) % 3 == 0,
        0 <= axis < 6,
    ensures
        co_sum(CubieSpec::mult(x, generator_spec(axis))) % 3 == 0,
{
    if axis == 0 {
        lemma_mod3_sum_axis0(x);
    } else if axis == 1 {
        lemma_mod3_sum_axis1(x);
    } else if axis == 2 {
        lemma_mod3_sum_axis2(x);
    } else if axis == 3 {
        lemma_mod3_sum_axis3(x);
    } else if axis == 4 {
        lemma_mod3_sum_axis4(x);
    } else {
        lemma_mod3_sum_axis5(x);
    }
}

#[verifier::rlimit(100)]
proof fn lemma_mod3_sum_axis0(x: CubieSpec)
    requires
        x.ranges_ok(),
        co_sum(x) % 3 == 0,
    ensures
        co_sum(CubieSpec::mult(x, generator_spec(0))) % 3 == 0,
{
    let g = generator_spec(0);
    let y = CubieSpec::mult(x, g);
    assert(y.co[0] == (x.co[g.cp[0]] + g.co[0]) % 3);
    assert(y.co[1] == (x.co[g.cp[1]] + g.co[1]) % 3);
    assert(y.co[2] == (x.co[g.cp[2]] + g.co[2]) % 3);
    assert(y.co[3] == (x.co[g.cp[3]] + g.co[3]) % 3);
    assert(y.co[4] == (x.co[g.cp[4]] + g.co[4]) % 3);
    assert(y.co[5] == (x.co[g.cp[5]] + g.co[5]) % 3);
    assert(y.co[6] == (x.co[g.cp[6]] + g.co[6]) % 3);
    assert(y.co[7] == (x.co[g.cp[7]] + g.co[7]) % 3);
    assert(x.co[g.cp[0]] + x.co[g.cp[1]] + x.co[g.cp[2]] + x.co[g.cp[3]] + x.co[g.cp[4]]
        + x.co[g.cp[5]] + x.co[g.cp[6]] + x.co[g.cp[7]] == co_sum(x));
}

#[verifier::rlimit(100)]
proof fn lemma_mod3_sum_axis1(x: CubieSpec)
    requires
        x.ranges_ok(),
        co_sum(x) % 3 == 0,
    ensures
        co_sum(CubieSpec::mult(x, generator_spec(1))) % 3 == 0,
{
    let g = generator_spec(1);
    let y = CubieSpec::mult(x, g);
    assert(y.co[0] == (x.co[g.cp[0]] + g.co[0]) % 3);
    assert(y.co[1] == (x.co[g.cp[1]] + g.co[1]) % 3);
    assert(y.co[2] == (x.co[g.cp[2]] + g.co[2]) % 3);
    assert(y.co[3] == (x.co[g.cp[3]] + g.co[3]) % 3);
    assert(y.co[4] == (x.co[g.cp[4]] + g.co[4]) % 3);
    assert(y.co[5] == (x.co[g.cp[5]] + g.co[5]) % 3);
    assert(y.co[6] == (x.co[g.cp[6]] + g.co[6]) % 3);
    assert(y.co[7] == (x.co[g.cp[7]] + g.co[7]) % 3);
    assert(x.co[g.cp[0]] + x.co[g.cp[1]] + x.co[g.cp[2]] + x.co[g.cp[3]] + x.co[g.cp[4]]
        + x.co[g.cp[5]] + x.co[g.cp[6]] + x.co[g.cp[7]] == co_sum(x));
}

#[verifier::rlimit(100)]
proof fn lemma_mod3_sum_axis2(x: CubieSpec)
    requires
        x.ranges_ok(),
        co_sum(x) % 3 == 0,
    ensures
        co_sum(CubieSpec::mult(x, generator_spec(2))) % 3 == 0,
{
    let g = generator_spec(2);
    let y = CubieSpec::mult(x, g);
    assert(y.co[0] == (x.co[g.cp[0]] + g.co[0]) % 3);
    assert(y.co[1] == (x.co[g.cp[1]] + g.co[1]) % 3);
    assert(y.co[2] == (x.co[g.cp[2]] + g.co[2]) % 3);
    assert(y.co[3] == (x.co[g.cp[3]] + g.co[3]) % 3);
    assert(y.co[4] == (x.co[g.cp[4]] + g.co[4]) % 3);
    assert(y.co[5] == (x.co[g.cp[5]] + g.co[5]) % 3);
    assert(y.co[6] == (x.co[g.cp[6]] + g.co[6]) % 3);
    assert(y.co[7] == (x.co[g.cp[7]] + g.co[7]) % 3);
    assert(x.co[g.cp[0]] + x.co[g.cp[1]] + x.co[g.cp[2]] + x.co[g.cp[3]] + x.co[g.cp[4]]
        + x.co[g.cp[5]] + x.co[g.cp[6]] + x.co[g.cp[7]] == co_sum(x));
}

#[verifier::rlimit(100)]
proof fn lemma_mod3_sum_axis3(x: CubieSpec)
    requires
        x.ranges_ok(),
        co_sum(x) % 3 == 0,
    ensures
        co_sum(CubieSpec::mult(x, generator_spec(3))) % 3 == 0,
{
    let g = generator_spec(3);
    let y = CubieSpec::mult(x, g);
    assert(y.co[0] == (x.co[g.cp[0]] + g.co[0]) % 3);
    assert(y.co[1] == (x.co[g.cp[1]] + g.co[1]) % 3);
    assert(y.co[2] == (x.co[g.cp[2]] + g.co[2]) % 3);
    assert(y.co[3] == (x.co[g.cp[3]] + g.co[3]) % 3);
    assert(y.co[4] == (x.co[g.cp[4]] + g.co[4]) % 3);
    assert(y.co[5] == (x.co[g.cp[5]] + g.co[5]) % 3);
    assert(y.co[6] == (x.co[g.cp[6]] + g.co[6]) % 3);
    assert(y.co[7] == (x.co[g.cp[7]] + g.co[7]) % 3);
    assert(x.co[g.cp[0]] + x.co[g.cp[1]] + x.co[g.cp[2]] + x.co[g.cp[3]] + x.co[g.cp[4]]
        + x.co[g.cp[5]] + x.co[g.cp[6]] + x.co[g.cp[7]] == co_sum(x));
}

#[verifier::rlimit(100)]
proof fn lemma_mod3_sum_axis4(x: CubieSpec)
    requires
        x.ranges_ok(),
        co_sum(x) % 3 == 0,
    ensures
        co_sum(CubieSpec::mult(x, generator_spec(4))) % 3 == 0,
{
    let g = generator_spec(4);
    let y = CubieSpec::mult(x, g);
    let a0 = x.co[g.cp[0]];
    let a1 = x.co[g.cp[1]];
    let a2 = x.co[g.cp[2]];
    let a3 = x.co[g.cp[3]];
    let a4 = x.co[g.cp[4]];
    let a5 = x.co[g.cp[5]];
    let a6 = x.co[g.cp[6]];
    let a7 = x.co[g.cp[7]];
    lemma_mod3_step(a0, g.co[0]);
    lemma_mod3_step(a1, g.co[1]);
    lemma_mod3_step(a2, g.co[2]);
    lemma_mod3_step(a3, g.co[3]);
    lemma_mod3_step(a4, g.co[4]);
    lemma_mod3_step(a5, g.co[5]);
    lemma_mod3_step(a6, g.co[6]);
    lemma_mod3_step(a7, g.co[7]);
    assert(y.co[0] == (a0 + g.co[0]) % 3);
    assert(y.co[1] == (a1 + g.co[1]) % 3);
    assert(y.co[2] == (a2 + g.co[2]) % 3);
    assert(y.co[3] == (a3 + g.co[3]) % 3);
    assert(y.co[4] == (a4 + g.co[4]) % 3);
    assert(y.co[5] == (a5 + g.co[5]) % 3);
    assert(y.co[6] == (a6 + g.co[6]) % 3);
    assert(y.co[7] == (a7 + g.co[7]) % 3);
    assert(a0 + a1 + a2 + a3 + a4 + a5 + a6 + a7 == co_sum(x));
    let k = (if a0 + g.co[0] >= 3 { 1int } else { 0int }) + (if a1 + g.co[1] >= 3 { 1int } else { 0int })
        + (if a2 + g.co[2] >= 3 { 1int } else { 0int }) + (if a3 + g.co[3] >= 3 { 1int } else { 0int })
        + (if a4 + g.co[4] >= 3 { 1int } else { 0int }) + (if a5 + g.co[5] >= 3 { 1int } else { 0int })
        + (if a6 + g.co[6] >= 3 { 1int } else { 0int }) + (if a7 + g.co[7] >= 3 { 1int } else { 0int });
    assert(co_sum(y) == co_sum(x) + 6 - 3 * k);
    vstd::arithmetic::div_mod::lemma_mod_multiples_vanish(2 - k, co_sum(x), 3);
}

proof fn lemma_mod3_step(a: int, c: int)
    requires
        0 <= a < 3,
        0 <= c < 3,
    ensures
        (a + c) % 3 == if a + c >= 3 { a + c - 3 } else { a + c },
{
}

#[verifier::rlimit(100)]
proof fn lemma_mod3_sum_axis5(x: CubieSpec)
    requires
        x.ranges_ok(),
        co_sum(x) % 3 == 0,
    ensures
        co_sum(CubieSpec::mult(x, generator_spec(5))) % 3 == 0,
{
    let g = generator_spec(5);
    let y = CubieSpec::mult(x, g);
    assert(y.co[0] == (x.co[g.cp[0]] + g.co[0]) % 3);
    assert(y.co[1] == (x.co[g.cp[1]] + g.co[1]) % 3);
    assert(y.co[2] == (x.co[g.cp[2]] + g.co[2]) % 3);
    assert(y.co[3] == (x.co[g.cp[3]] + g.co[3]) % 3);
    assert(y.co[4] == (x.co[g.cp[4]] + g.co[4]) % 3);
    assert(y.co[5] == (x.co[g.cp[5]] + g.co[5]) % 3);
    assert(y.co[6] == (x.co[g.cp[6]] + g.co[6]) % 3);
    assert(y.co[7] == (x.co[g.cp[7]] + g.co[7]) % 3);
    assert(x.co[g.cp[0]] + x.co[g.cp[1]] + x.co[g.cp[2]] + x.co[g.cp[3]] + x.co[g.cp[4]]
        + x.co[g.cp[5]] + x.co[g.cp[6]] + x.co[g.cp[7]] == co_sum(x));
}

/// The edge-orientation sum of a product stays even.
#[verifier::rlimit(100)]
#[verifier::spinoff_prover]
proof fn lemma_mod2_sum(x: CubieSpec, axis: int)
    requires
        x.ranges_ok(),
        eo_sum(x) % 2 == 0,
        0 <= axis < 6,
    ensures
        eo_sum(CubieSpec::mult(x, generator_spec(axis))) % 2 == 0,
{
    let g = generator_spec(axis);
    let y = CubieSpec::mult(x, g);
    assert(y.eo[0] == (x.eo[g.ep[0]] + g.eo[0]) % 2);
    assert(y.eo[1] == (x.eo[g.ep[1]] + g.eo[1]) % 2);
    assert(y.eo[2] == (x.eo[g.ep[2]] + g.eo[2]) % 2);
    assert(y.eo[3] == (x.eo[g.ep[3]] + g.eo[3]) % 2);
    assert(y.eo[4] == (x.eo[g.ep[4]] + g.eo[4]) % 2);
    assert(y.eo[5] == (x.eo[g.ep[5]] + g.eo[5]) % 2);
    assert(y.eo[6] == (x.eo[g.ep[6]] + g.eo[6]) % 2);
    assert(y.eo[7] == (x.eo[g.ep[7]] + g.eo[7]) % 2);
    assert(y.eo[8] == (x.eo[g.ep[8]] + g.eo[8]) % 2);
    assert(y.eo[9] == (x.eo[g.ep[9]] + g.eo[9]) % 2);
    assert(y.eo[10] == (x.eo[g.ep[10]] + g.eo[10]) % 2);
    assert(y.eo[11] == (x.eo[g.ep[11]] + g.eo[11]) % 2);
    assert(x.eo[g.ep[0]] + x.eo[g.ep[1]] + x.eo[g.ep[2]] + x.eo[g.ep[3]] + x.eo[g.ep[4]]
        + x.eo[g.ep[5]] + x.eo[g.ep[6]] + x.eo[g.ep[7]] + x.eo[g.ep[8]] + x.eo[g.ep[9]]
        + x.eo[g.ep[10]] + x.eo[g.ep[11]] == eo_sum(x));
    assert((g.eo[0] + g.eo[1] + g.eo[2] + g.eo[3] + g.eo[4] + g.eo[5] + g.eo[6] + g.eo[7]
        + g.eo[8] + g.eo[9] + g.eo[10] + g.eo[11]) % 2 == 0);
}



/// One quarter turn flips the parity of the corner permutation and of
/// the edge permutation alike, so their equality survives.
proof fn lemma_parity_flip(x: CubieSpec, axis: int)
    requires
        x.wf(),
        0 <= axis < 6,
    ensures
        corner_parity_of(CubieSpec::mult(x, generator_spec(axis))) == (corner_parity_of(x) + 1)
            % 2,
        edge_parity_of(CubieSpec::mult(x, generator_spec(axis))) == (edge_parity_of(x) + 1) % 2,
{
    if axis == 0 {
        lemma_parity_flip_c0(x);
        lemma_parity_flip_e0(x);
    } else if axis == 1 {
        lemma_parity_flip_c1(x);
        lemma_parity_flip_e1(x);
    } else if axis == 2 {
        lemma_parity_flip_c2(x);
        lemma_parity_flip_e2(x);
    } else if axis == 3 {
        lemma_parity_flip_c3(x);
        lemma_parity_flip_e3(x);
    } else if axis == 4 {
        lemma_parity_flip_c4(x);
        lemma_parity_flip_e4(x);
    } else {
        lemma_parity_flip_c5(x);
        lemma_parity_flip_e5(x);
    }
}

/// 1 when entry i of p exceeds entry j, else 0.
pub open spec fn gt1(p: Seq<int>, i: int, j: int) -> int {
    if p[i] > p[j] {
        1
    } else {
        0
    }
}


/// The inversion count over eight entries, written out pair by pair.
pub open spec fn pair8(p: Seq<int>) -> int {
    gt1(p, 0, 1) + gt1(p, 0, 2) + gt1(p, 1, 2) + gt1(p, 0, 3) + gt1(p, 1, 3) + gt1(p, 2, 3) + gt1(p, 0, 4) + gt1(p, 1, 4) + gt1(p, 2, 4) + gt1(p, 3, 4) + gt1(p, 0, 5) + gt1(p, 1, 5) + gt1(p, 2, 5) + gt1(p, 3, 5) + gt1(p, 4, 5) + gt1(p, 0, 6) + gt1(p, 1, 6) + gt1(p, 2, 6) + gt1(p, 3, 6) + gt1(p, 4, 6) + gt1(p, 5, 6) + gt1(p, 0, 7) + gt1(p, 1, 7) + gt1(p, 2, 7) + gt1(p, 3, 7) + gt1(p, 4, 7) + gt1(p, 5, 7) + gt1(p, 6, 7)
}

/// The inversion count over twelve entries, written out pair by pair.
pub open spec fn pair12(p: Seq<int>) -> int {
    gt1(p, 0, 1) + gt1(p, 0, 2) + gt1(p, 1, 2) + gt1(p, 0, 3) + gt1(p, 1, 3) + gt1(p, 2, 3) + gt1(p, 0, 4) + gt1(p, 1, 4) + gt1(p, 2, 4) + gt1(p, 3, 4) + gt1(p, 0, 5) + gt1(p, 1, 5) + gt1(p, 2, 5) + gt1(p, 3, 5) + gt1(p, 4, 5) + gt1(p, 0, 6) + gt1(p, 1, 6) + gt1(p, 2, 6) + gt1(p, 3, 6) + gt1(p, 4, 6) + gt1(p, 5, 6) + gt1(p, 0, 7) + gt1(p, 1, 7) + gt1(p, 2, 7) + gt1(p, 3, 7) + gt1(p, 4, 7) + gt1(p, 5, 7) + gt1(p, 6, 7) + gt1(p, 0, 8) + gt1(p, 1, 8) + gt1(p, 2, 8) + gt1(p, 3, 8) + gt1(p, 4, 8) + gt1(p, 5, 8) + gt1(p, 6, 8) + gt1(p, 7, 8) + gt1(p, 0, 9) + gt1(p, 1, 9) + gt1(p, 2, 9) + gt1(p, 3, 9) + gt1(p, 4, 9) + gt1(p, 5, 9) + gt1(p, 6, 9) + gt1(p, 7, 9) + gt1(p, 8, 9) + gt1(p, 0, 10) + gt1(p, 1, 10) + gt1(p, 2, 10) + gt1(p, 3, 10) + gt1(p, 4, 10) + gt1(p, 5, 10) + gt1(p, 6, 10) + gt1(p, 7, 10) + gt1(p, 8, 10) + gt1(p, 9, 10) + gt1(p, 0, 11) + gt1(p, 1, 11) + gt1(p, 2, 11) + gt1(p, 3, 11) + gt1(p, 4, 11) + gt1(p, 5, 11) + gt1(p, 6, 11) + gt1(p, 7, 11) + gt1(p, 8, 11) + gt1(p, 9, 11) + gt1(p, 10, 11)
}


proof fn lemma_count_expand_1(p: Seq<int>)
    ensures
        crate::cubie::count_gt(p, 1, 1) == gt1(p, 0, 1),
{
    reveal_with_fuel(crate::cubie::count_gt, 3);
}


proof fn lemma_count_expand_2(p: Seq<int>)
    ensures
        crate::cubie::count_gt(p, 2, 2) == gt1(p, 0, 2) + gt1(p, 1, 2),
{
    reveal_with_fuel(crate::cubie::count_gt, 4);
}


proof fn lemma_count_expand_3(p: Seq<int>)
    ensures
        crate::cubie::count_gt(p, 3, 3) == gt1(p, 0, 3) + gt1(p, 1, 3) + gt1(p, 2, 3),
{
    reveal_with_fuel(crate::cubie::count_gt, 5);
}


proof fn lemma_count_expand_4(p: Seq<int>)
    ensures
        crate::cubie::count_gt(p, 4, 4) == gt1(p, 0, 4) + gt1(p, 1, 4) + gt1(p, 2, 4) + gt1(p, 3, 4),
{
    reveal_with_fuel(crate::cubie::count_gt, 6);
}


proof fn lemma_count_expand_5(p: Seq<int>)
    ensures
        crate::cubie::count_gt(p, 5, 5) == gt1(p, 0, 5) + gt1(p, 1, 5) + gt1(p, 2, 5) + gt1(p, 3, 5) + gt1(p, 4, 5),
{
    reveal_with_fuel(crate::cubie::count_gt, 7);
}


proof fn lemma_count_expand_6(p: Seq<int>)
    ensures
        crate::cubie::count_gt(p, 6, 6) == gt1(p, 0, 6) + gt1(p, 1, 6) + gt1(p, 2, 6) + gt1(p, 3, 6) + gt1(p, 4, 6) + gt1(p, 5, 6),
{
    reveal_with_fuel(crate::cubie::count_gt, 8);
}


proof fn lemma_count_expand_7(p: Seq<int>)
    ensures
        crate::cubie::count_gt(p, 7, 7) == gt1(p, 0, 7) + gt1(p, 1, 7) + gt1(p, 2, 7) + gt1(p, 3, 7) + gt1(p, 4, 7) + gt1(p, 5, 7) + gt1(p, 6, 7),
{
    reveal_with_fuel(crate::cubie::count_gt, 9);
}


proof fn lemma_count_expand_8(p: Seq<int>)
    ensures
        crate::cubie::count_gt(p, 8, 8) == gt1(p, 0, 8) + gt1(p, 1, 8) + gt1(p, 2, 8) + gt1(p, 3, 8) + gt1(p, 4, 8) + gt1(p, 5, 8) + gt1(p, 6, 8) + gt1(p, 7, 8),
{
    reveal_with_fuel(crate::cubie::count_gt, 10);
}


proof fn lemma_count_expand_9(p: Seq<int>)
    ensures
        crate::cubie::count_gt(p, 9, 9) == gt1(p, 0, 9) + gt1(p, 1, 9) + gt1(p, 2, 9) + gt1(p, 3, 9) + gt1(p, 4, 9) + gt1(p, 5, 9) + gt1(p, 6, 9) + gt1(p, 7, 9) + gt1(p, 8, 9),
{
    reveal_with_fuel(crate::cubie::count_gt, 11);
}


proof fn lemma_count_expand_10(p: Seq<int>)
    ensures
        crate::cubie::count_gt(p, 10, 10) == gt1(p, 0, 10) + gt1(p, 1, 10) + gt1(p, 2, 10) + gt1(p, 3, 10) + gt1(p, 4, 10) + gt1(p, 5, 10) + gt1(p, 6, 10) + gt1(p, 7, 10) + gt1(p, 8, 10) + gt1(p, 9, 10),
{
    reveal_with_fuel(crate::cubie::count_gt, 12);
}


proof fn lemma_count_expand_11(p: Seq<int>)
    ensures
        crate::cubie::count_gt(p, 11, 11) == gt1(p, 0, 11) + gt1(p, 1, 11) + gt1(p, 2, 11) + gt1(p, 3, 11) + gt1(p, 4, 11) + gt1(p, 5, 11) + gt1(p, 6, 11) + gt1(p, 7, 11) + gt1(p, 8, 11) + gt1(p, 9, 11) + gt1(p, 10, 11),
{
    reveal_with_fuel(crate::cubie::count_gt, 13);
}


#[verifier::rlimit(60)]
proof fn lemma_inv8_as_pairs(p: Seq<int>)
    ensures
        crate::cubie::inv_count(p, 8) == pair8(p),
{
    reveal_with_fuel(crate::cubie::inv_count, 10);
    lemma_count_expand_1(p);
    lemma_count_expand_2(p);
    lemma_count_expand_3(p);
    lemma_count_expand_4(p);
    lemma_count_expand_5(p);
    lemma_count_expand_6(p);
    lemma_count_expand_7(p);
}

#[verifier::rlimit(60)]
proof fn lemma_inv12_as_pairs(p: Seq<int>)
    ensures
        crate::cubie::inv_count(p, 12) == pair12(p),
{
    reveal_with_fuel(crate::cubie::inv_count, 14);
    lemma_count_expand_1(p);
    lemma_count_expand_2(p);
    lemma_count_expand_3(p);
    lemma_count_expand_4(p);
    lemma_count_expand_5(p);
    lemma_count_expand_6(p);
    lemma_count_expand_7(p);
    lemma_count_expand_8(p);
    lemma_count_expand_9(p);
    lemma_count_expand_10(p);
    lemma_count_expand_11(p);
}




#[verifier::rlimit(100)]
#[verifier::spinoff_prover]
proof fn lemma_pair_map_c0(x: CubieSpec)
    requires
        x.wf(),
    ensures
        gt1(CubieSpec::mult(x, generator_spec(0)).cp, 0, 1) == 1 - gt1(x.cp, 0, 3),
        gt1(CubieSpec::mult(x, generator_spec(0)).cp, 0, 2) == 1 - gt1(x.cp, 1, 3),
        gt1(CubieSpec::mult(x, generator_spec(0)).cp, 1, 2) == gt1(x.cp, 0, 1),
        gt1(CubieSpec::mult(x, generator_spec(0)).cp, 0, 3) == 1 - gt1(x.cp, 2, 3),
        gt1(CubieSpec::mult(x, generator_spec(0)).cp, 1, 3) == gt1(x.cp, 0, 2),
        gt1(CubieSpec::mult(x, generator_spec(0)).cp, 2, 3) == gt1(x.cp, 1, 2),
        gt1(CubieSpec::mult(x, generator_spec(0)).cp, 0, 4) == gt1(x.cp, 3, 4),
        gt1(CubieSpec::mult(x, generator_spec(0)).cp, 1, 4) == gt1(x.cp, 0, 4),
        gt1(CubieSpec::mult(x, generator_spec(0)).cp, 2, 4) == gt1(x.cp, 1, 4),
        gt1(CubieSpec::mult(x, generator_spec(0)).cp, 3, 4) == gt1(x.cp, 2, 4),
        gt1(CubieSpec::mult(x, generator_spec(0)).cp, 0, 5) == gt1(x.cp, 3, 5),
        gt1(CubieSpec::mult(x, generator_spec(0)).cp, 1, 5) == gt1(x.cp, 0, 5),
        gt1(CubieSpec::mult(x, generator_spec(0)).cp, 2, 5) == gt1(x.cp, 1, 5),
        gt1(CubieSpec::mult(x, generator_spec(0)).cp, 3, 5) == gt1(x.cp, 2, 5),
        gt1(CubieSpec::mult(x, generator_spec(0)).cp, 4, 5) == gt1(x.cp, 4, 5),
        gt1(CubieSpec::mult(x, generator_spec(0)).cp, 0, 6) == gt1(x.cp, 3, 6),
        gt1(CubieSpec::mult(x, generator_spec(0)).cp, 1, 6) == gt1(x.cp, 0, 6),
        gt1(CubieSpec::mult(x, generator_spec(0)).cp, 2, 6) == gt1(x.cp, 1, 6),
        gt1(CubieSpec::mult(x, generator_spec(0)).cp, 3, 6) == gt1(x.cp, 2, 6),
        gt1(CubieSpec::mult(x, generator_spec(0)).cp, 4, 6) == gt1(x.cp, 4, 6),
        gt1(CubieSpec::mult(x, generator_spec(0)).cp, 5, 6) == gt1(x.cp, 5, 6),
        gt1(CubieSpec::mult(x, generator_spec(0)).cp, 0, 7) == gt1(x.cp, 3, 7),
        gt1(CubieSpec::mult(x, generator_spec(0)).cp, 1, 7) == gt1(x.cp, 0, 7),
        gt1(CubieSpec::mult(x, generator_spec(0)).cp, 2, 7) == gt1(x.cp, 1, 7),
        gt1(CubieSpec::mult(x, generator_spec(0)).cp, 3, 7) == gt1(x.cp, 2, 7),
        gt1(CubieSpec::mult(x, generator_spec(0)).cp, 4, 7) == gt1(x.cp, 4, 7),
        gt1(CubieSpec::mult(x, generator_spec(0)).cp, 5, 7) == gt1(x.cp, 5, 7),
        gt1(CubieSpec::mult(x, generator_spec(0)).cp, 6, 7) == gt1(x.cp, 6, 7),
{
    let y = CubieSpec::mult(x, generator_spec(0));
    assert(y.cp[0] == x.cp[3]);
    assert(y.cp[1] == x.cp[0]);
    assert(y.cp[2] == x.cp[1]);
    assert(y.cp[3] == x.cp[2]);
    assert(y.cp[4] == x.cp[4]);
    assert(y.cp[5] == x.cp[5]);
    assert(y.cp[6] == x.cp[6]);
    assert(y.cp[7] == x.cp[7]);
    assert(gt1(y.cp, 0, 1) == 1 - gt1(x.cp, 0, 3));
    assert(gt1(y.cp, 0, 2) == 1 - gt1(x.cp, 1, 3));
    assert(gt1(y.cp, 1, 2) == gt1(x.cp, 0, 1));
    assert(gt1(y.cp, 0, 3) == 1 - gt1(x.cp, 2, 3));
    assert(gt1(y.cp, 1, 3) == gt1(x.cp, 0, 2));
    assert(gt1(y.cp, 2, 3) == gt1(x.cp, 1, 2));
    assert(gt1(y.cp, 0, 4) == gt1(x.cp, 3, 4));
    assert(gt1(y.cp, 1, 4) == gt1(x.cp, 0, 4));
    assert(gt1(y.cp, 2, 4) == gt1(x.cp, 1, 4));
    assert(gt1(y.cp, 3, 4) == gt1(x.cp, 2, 4));
    assert(gt1(y.cp, 0, 5) == gt1(x.cp, 3, 5));
    assert(gt1(y.cp, 1, 5) == gt1(x.cp, 0, 5));
    assert(gt1(y.cp, 2, 5) == gt1(x.cp, 1, 5));
    assert(gt1(y.cp, 3, 5) == gt1(x.cp, 2, 5));
    assert(gt1(y.cp, 4, 5) == gt1(x.cp, 4, 5));
    assert(gt1(y.cp, 0, 6) == gt1(x.cp, 3, 6));
    assert(gt1(y.cp, 1, 6) == gt1(x.cp, 0, 6));
    assert(gt1(y.cp, 2, 6) == gt1(x.cp, 1, 6));
    assert(gt1(y.cp, 3, 6) == gt1(x.cp, 2, 6));
    assert(gt1(y.cp, 4, 6) == gt1(x.cp, 4, 6));
    assert(gt1(y.cp, 5, 6) == gt1(x.cp, 5, 6));
    assert(gt1(y.cp, 0, 7) == gt1(x.cp, 3, 7));
    assert(gt1(y.cp, 1, 7) == gt1(x.cp, 0, 7));
    assert(gt1(y.cp, 2, 7) == gt1(x.cp, 1, 7));
    assert(gt1(y.cp, 3, 7) == gt1(x.cp, 2, 7));
    assert(gt1(y.cp, 4, 7) == gt1(x.cp, 4, 7));
    assert(gt1(y.cp, 5, 7) == gt1(x.cp, 5, 7));
    assert(gt1(y.cp, 6, 7) == gt1(x.cp, 6, 7));
}

#[verifier::rlimit(100)]
#[verifier::spinoff_prover]
proof fn lemma_pair_map_e0(x: CubieSpec)
    requires
        x.wf(),
    ensures
        gt1(CubieSpec::mult(x, generator_spec(0)).ep, 0, 1) == 1 - gt1(x.ep, 0, 3),
        gt1(CubieSpec::mult(x, generator_spec(0)).ep, 0, 2) == 1 - gt1(x.ep, 1, 3),
        gt1(CubieSpec::mult(x, generator_spec(0)).ep, 1, 2) == gt1(x.ep, 0, 1),
        gt1(CubieSpec::mult(x, generator_spec(0)).ep, 0, 3) == 1 - gt1(x.ep, 2, 3),
        gt1(CubieSpec::mult(x, generator_spec(0)).ep, 1, 3) == gt1(x.ep, 0, 2),
        gt1(CubieSpec::mult(x, generator_spec(0)).ep, 2, 3) == gt1(x.ep, 1, 2),
        gt1(CubieSpec::mult(x, generator_spec(0)).ep, 0, 4) == gt1(x.ep, 3, 4),
        gt1(CubieSpec::mult(x, generator_spec(0)).ep, 1, 4) == gt1(x.ep, 0, 4),
        gt1(CubieSpec::mult(x, generator_spec(0)).ep, 2, 4) == gt1(x.ep, 1, 4),
        gt1(CubieSpec::mult(x, generator_spec(0)).ep, 3, 4) == gt1(x.ep, 2, 4),
        gt1(CubieSpec::mult(x, generator_spec(0)).ep, 0, 5) == gt1(x.ep, 3, 5),
        gt1(CubieSpec::mult(x, generator_spec(0)).ep, 1, 5) == gt1(x.ep, 0, 5),
        gt1(CubieSpec::mult(x, generator_spec(0)).ep, 2, 5) == gt1(x.ep, 1, 5),
        gt1(CubieSpec::mult(x, generator_spec(0)).ep, 3, 5) == gt1(x.ep, 2, 5),
        gt1(CubieSpec::mult(x, generator_spec(0)).ep, 4, 5) == gt1(x.ep, 4, 5),
        gt1(CubieSpec::mult(x, generator_spec(0)).ep, 0, 6) == gt1(x.ep, 3, 6),
        gt1(CubieSpec::mult(x, generator_spec(0)).ep, 1, 6) == gt1(x.ep, 0, 6),
        gt1(CubieSpec::mult(x, generator_spec(0)).ep, 2, 6) == gt1(x.ep, 1, 6),
        gt1(CubieSpec::mult(x, generator_spec(0)).ep, 3, 6) == gt1(x.ep, 2, 6),
        gt1(CubieSpec::mult(x, generator_spec(0)).ep, 4, 6) == gt1(x.ep, 4, 6),
        gt1(CubieSpec::mult(x, generator_spec(0)).ep, 5, 6) == gt1(x.ep, 5, 6),
        gt1(CubieSpec::mult(x, generator_spec(0)).ep, 0, 7) == gt1(x.ep, 3, 7),
        gt1(CubieSpec::mult(x, generator_spec(0)).ep, 1, 7) == gt1(x.ep, 0, 7),
        gt1(CubieSpec::mult(x, generator_spec(0)).ep, 2, 7) == gt1(x.ep, 1, 7),
        gt1(CubieSpec::mult(x, generator_spec(0)).ep, 3, 7) == gt1(x.ep, 2, 7),
        gt1(CubieSpec::mult(x, generator_spec(0)).ep, 4, 7) == gt1(x.ep, 4, 7),
        gt1(CubieSpec::mult(x, generator_spec(0)).ep, 5, 7) == gt1(x.ep, 5, 7),
        gt1(CubieSpec::mult(x, generator_spec(0)).ep, 6, 7) == gt1(x.ep, 6, 7),
        gt1(CubieSpec::mult(x, generator_spec(0)).ep, 0, 8) == gt1(x.ep, 3, 8),
        gt1(CubieSpec::mult(x, generator_spec(0)).ep, 1, 8) == gt1(x.ep, 0, 8),
        gt1(CubieSpec::mult(x, generator_spec(0)).ep, 2, 8) == gt1(x.ep, 1, 8),
        gt1(CubieSpec::mult(x, generator_spec(0)).ep, 3, 8) == gt1(x.ep, 2, 8),
        gt1(CubieSpec::mult(x, generator_spec(0)).ep, 4, 8) == gt1(x.ep, 4, 8),
        gt1(CubieSpec::mult(x, generator_spec(0)).ep, 5, 8) == gt1(x.ep, 5, 8),
        gt1(CubieSpec::mult(x, generator_spec(0)).ep, 6, 8) == gt1(x.ep, 6, 8),
        gt1(CubieSpec::mult(x, generator_spec(0)).ep, 7, 8) == gt1(x.ep, 7, 8),
        gt1(CubieSpec::mult(x, generator_spec(0)).ep, 0, 9) == gt1(x.ep, 3, 9),
        gt1(CubieSpec::mult(x, generator_spec(0)).ep, 1, 9) == gt1(x.ep, 0, 9),
        gt1(CubieSpec::mult(x, generator_spec(0)).ep, 2, 9) == gt1(x.ep, 1, 9),
        gt1(CubieSpec::mult(x, generator_spec(0)).ep, 3, 9) == gt1(x.ep, 2, 9),
        gt1(CubieSpec::mult(x, generator_spec(0)).ep, 4, 9) == gt1(x.ep, 4, 9),
        gt1(CubieSpec::mult(x, generator_spec(0)).ep, 5, 9) == gt1(x.ep, 5, 9),
        gt1(CubieSpec::mult(x, generator_spec(0)).ep, 6, 9) == gt1(x.ep, 6, 9),
        gt1(CubieSpec::mult(x, generator_spec(0)).ep, 7, 9) == gt1(x.ep, 7, 9),
        gt1(CubieSpec::mult(x, generator_spec(0)).ep, 8, 9) == gt1(x.ep, 8, 9),
        gt1(CubieSpec::mult(x, generator_spec(0)).ep, 0, 10) == gt1(x.ep, 3, 10),
        gt1(CubieSpec::mult(x, generator_spec(0)).ep, 1, 10) == gt1(x.ep, 0, 10),
        gt1(CubieSpec::mult(x, generator_spec(0)).ep, 2, 10) == gt1(x.ep, 1, 10),
        gt1(CubieSpec::mult(x, generator_spec(0)).ep, 3, 10) == gt1(x.ep, 2, 10),
        gt1(CubieSpec::mult(x, generator_spec(0)).ep, 4, 10) == gt1(x.ep, 4, 10),
        gt1(CubieSpec::mult(x, generator_spec(0)).ep, 5, 10) == gt1(x.ep, 5, 10),
        gt1(CubieSpec::mult(x, generator_spec(0)).ep, 6, 10) == gt1(x.ep, 6, 10),
        gt1(CubieSpec::mult(x, generator_spec(0)).ep, 7, 10) == gt1(x.ep, 7, 10),
        gt1(CubieSpec::mult(x, generator_spec(0)).ep, 8, 10) == gt1(x.ep, 8, 10),
        gt1(CubieSpec::mult(x, generator_spec(0)).ep, 9, 10) == gt1(x.ep, 9, 10),
        gt1(CubieSpec::mult(x, generator_spec(0)).ep, 0, 11) == gt1(x.ep, 3, 11),
        gt1(CubieSpec::mult(x, generator_spec(0)).ep, 1, 11) == gt1(x.ep, 0, 11),
        gt1(CubieSpec::mult(x, generator_spec(0)).ep, 2, 11) == gt1(x.ep, 1, 11),
        gt1(CubieSpec::mult(x, generator_spec(0)).ep, 3, 11) == gt1(x.ep, 2, 11),
        gt1(CubieSpec::mult(x, generator_spec(0)).ep, 4, 11) == gt1(x.ep, 4, 11),
        gt1(CubieSpec::mult(x, generator_spec(0)).ep, 5, 11) == gt1(x.ep, 5, 11),
        gt1(CubieSpec::mult(x, generator_spec(0)).ep, 6, 11) == gt1(x.ep, 6, 11),
        gt1(CubieSpec::mult(x, generator_spec(0)).ep, 7, 11) == gt1(x.ep, 7, 11),
        gt1(CubieSpec::mult(x, generator_spec(0)).ep, 8, 11) == gt1(x.ep, 8, 11),
        gt1(CubieSpec::mult(x, generator_spec(0)).ep, 9, 11) == gt1(x.ep, 9, 11),
        gt1(CubieSpec::mult(x, generator_spec(0)).ep, 10, 11) == gt1(x.ep, 10, 11),
{
    let y = CubieSpec::mult(x, generator_spec(0));
    assert(y.ep[0] == x.ep[3]);
    assert(y.ep[1] == x.ep[0]);
    assert(y.ep[2] == x.ep[1]);
    assert(y.ep[3] == x.ep[2]);
    assert(y.ep[4] == x.ep[4]);
    assert(y.ep[5] == x.ep[5]);
    assert(y.ep[6] == x.ep[6]);
    assert(y.ep[7] == x.ep[7]);
    assert(y.ep[8] == x.ep[8]);
    assert(y.ep[9] == x.ep[9]);
    assert(y.ep[10] == x.ep[10]);
    assert(y.ep[11] == x.ep[11]);
    assert(gt1(y.ep, 0, 1) == 1 - gt1(x.ep, 0, 3));
    assert(gt1(y.ep, 0, 2) == 1 - gt1(x.ep, 1, 3));
    assert(gt1(y.ep, 1, 2) == gt1(x.ep, 0, 1));
    assert(gt1(y.ep, 0, 3) == 1 - gt1(x.ep, 2, 3));
    assert(gt1(y.ep, 1, 3) == gt1(x.ep, 0, 2));
    assert(gt1(y.ep, 2, 3) == gt1(x.ep, 1, 2));
    assert(gt1(y.ep, 0, 4) == gt1(x.ep, 3, 4));
    assert(gt1(y.ep, 1, 4) == gt1(x.ep, 0, 4));
    assert(gt1(y.ep, 2, 4) == gt1(x.ep, 1, 4));
    assert(gt1(y.ep, 3, 4) == gt1(x.ep, 2, 4));
    assert(gt1(y.ep, 0, 5) == gt1(x.ep, 3, 5));
    assert(gt1(y.ep, 1, 5) == gt1(x.ep, 0, 5));
    assert(gt1(y.ep, 2, 5) == gt1(x.ep, 1, 5));
    assert(gt1(y.ep, 3, 5) == gt1(x.ep, 2, 5));
    assert(gt1(y.ep, 4, 5) == gt1(x.ep, 4, 5));
    assert(gt1(y.ep, 0, 6) == gt1(x.ep, 3, 6));
    assert(gt1(y.ep, 1, 6) == gt1(x.ep, 0, 6));
    assert(gt1(y.ep, 2, 6) == gt1(x.ep, 1, 6));
    assert(gt1(y.ep, 3, 6) == gt1(x.ep, 2, 6));
    assert(gt1(y.ep, 4, 6) == gt1(x.ep, 4, 6));
    assert(gt1(y.ep, 5, 6) == gt1(x.ep, 5, 6));
    assert(gt1(y.ep, 0, 7) == gt1(x.ep, 3, 7));
    assert(gt1(y.ep, 1, 7) == gt1(x.ep, 0, 7));
    assert(gt1(y.ep, 2, 7) == gt1(x.ep, 1, 7));
    assert(gt1(y.ep, 3, 7) == gt1(x.ep, 2, 7));
    assert(gt1(y.ep, 4, 7) == gt1(x.ep, 4, 7));
    assert(gt1(y.ep, 5, 7) == gt1(x.ep, 5, 7));
    assert(gt1(y.ep, 6, 7) == gt1(x.ep, 6, 7));
    assert(gt1(y.ep, 0, 8) == gt1(x.ep, 3, 8));
    assert(gt1(y.ep, 1, 8) == gt1(x.ep, 0, 8));
    assert(gt1(y.ep, 2, 8) == gt1(x.ep, 1, 8));
    assert(gt1(y.ep, 3, 8) == gt1(x.ep, 2, 8));
    assert(gt1(y.ep, 4, 8) == gt1(x.ep, 4, 8));
    assert(gt1(y.ep, 5, 8) == gt1(x.ep, 5, 8));
    assert(gt1(y.ep, 6, 8) == gt1(x.ep, 6, 8));
    assert(gt1(y.ep, 7, 8) == gt1(x.ep, 7, 8));
    assert(gt1(y.ep, 0, 9) == gt1(x.ep, 3, 9));
    assert(gt1(y.ep, 1, 9) == gt1(x.ep, 0, 9));
    assert(gt1(y.ep, 2, 9) == gt1(x.ep, 1, 9));
    assert(gt1(y.ep, 3, 9) == gt1(x.ep, 2, 9));
    assert(gt1(y.ep, 4, 9) == gt1(x.ep, 4, 9));
    assert(gt1(y.ep, 5, 9) == gt1(x.ep, 5, 9));
    assert(gt1(y.ep, 6, 9) == gt1(x.ep, 6, 9));
    assert(gt1(y.ep, 7, 9) == gt1(x.ep, 7, 9));
    assert(gt1(y.ep, 8, 9) == gt1(x.ep, 8, 9));
    assert(gt1(y.ep, 0, 10) == gt1(x.ep, 3, 10));
    assert(gt1(y.ep, 1, 10) == gt1(x.ep, 0, 10));
    assert(gt1(y.ep, 2, 10) == gt1(x.ep, 1, 10));
    assert(gt1(y.ep, 3, 10) == gt1(x.ep, 2, 10));
    assert(gt1(y.ep, 4, 10) == gt1(x.ep, 4, 10));
    assert(gt1(y.ep, 5, 10) == gt1(x.ep, 5, 10));
    assert(gt1(y.ep, 6, 10) == gt1(x.ep, 6, 10));
    assert(gt1(y.ep, 7, 10) == gt1(x.ep, 7, 10));
    assert(gt1(y.ep, 8, 10) == gt1(x.ep, 8, 10));
    assert(gt1(y.ep, 9, 10) == gt1(x.ep, 9, 10));
    assert(gt1(y.ep, 0, 11) == gt1(x.ep, 3, 11));
    assert(gt1(y.ep, 1, 11) == gt1(x.ep, 0, 11));
    assert(gt1(y.ep, 2, 11) == gt1(x.ep, 1, 11));
    assert(gt1(y.ep, 3, 11) == gt1(x.ep, 2, 11));
    assert(gt1(y.ep, 4, 11) == gt1(x.ep, 4, 11));
    assert(gt1(y.ep, 5, 11) == gt1(x.ep, 5, 11));
    assert(gt1(y.ep, 6, 11) == gt1(x.ep, 6, 11));
    assert(gt1(y.ep, 7, 11) == gt1(x.ep, 7, 11));
    assert(gt1(y.ep, 8, 11) == gt1(x.ep, 8, 11));
    assert(gt1(y.ep, 9, 11) == gt1(x.ep, 9, 11));
    assert(gt1(y.ep, 10, 11) == gt1(x.ep, 10, 11));
}

#[verifier::rlimit(100)]
#[verifier::spinoff_prover]
proof fn lemma_parity_flip_c0(x: CubieSpec)
    requires
        x.wf(),
    ensures
        corner_parity_of(CubieSpec::mult(x, generator_spec(0))) == (corner_parity_of(x) + 1)
            % 2,
{
    let g = generator_spec(0);
    let y = CubieSpec::mult(x, g);
    lemma_pair_map_c0(x);
    lemma_inv8_as_pairs(x.cp);
    lemma_inv8_as_pairs(y.cp);
    let sc = gt1(x.cp, 0, 3) + gt1(x.cp, 1, 3) + gt1(x.cp, 2, 3);
    assert(pair8(y.cp) == pair8(x.cp) + 3 - 2 * sc);
    vstd::arithmetic::div_mod::lemma_mod_multiples_vanish(1 - sc, pair8(x.cp) + 1, 2);
}

#[verifier::rlimit(100)]
#[verifier::spinoff_prover]
proof fn lemma_parity_flip_e0(x: CubieSpec)
    requires
        x.wf(),
    ensures
        edge_parity_of(CubieSpec::mult(x, generator_spec(0))) == (edge_parity_of(x) + 1) % 2,
{
    let g = generator_spec(0);
    let y = CubieSpec::mult(x, g);
    lemma_pair_map_e0(x);
    lemma_inv12_as_pairs(x.ep);
    lemma_inv12_as_pairs(y.ep);
    let se = gt1(x.ep, 0, 3) + gt1(x.ep, 1, 3) + gt1(x.ep, 2, 3);
    assert(pair12(y.ep) == pair12(x.ep) + 3 - 2 * se);
    vstd::arithmetic::div_mod::lemma_mod_multiples_vanish(1 - se, pair12(x.ep) + 1, 2);
}


#[verifier::rlimit(100)]
#[verifier::spinoff_prover]
proof fn lemma_pair_map_c1(x: CubieSpec)
    requires
        x.wf(),
    ensures
        gt1(CubieSpec::mult(x, generator_spec(1)).cp, 0, 1) == 1 - gt1(x.cp, 1, 4),
        gt1(CubieSpec::mult(x, generator_spec(1)).cp, 0, 2) == 1 - gt1(x.cp, 2, 4),
        gt1(CubieSpec::mult(x, generator_spec(1)).cp, 1, 2) == gt1(x.cp, 1, 2),
        gt1(CubieSpec::mult(x, generator_spec(1)).cp, 0, 3) == 1 - gt1(x.cp, 0, 4),
        gt1(CubieSpec::mult(x, generator_spec(1)).cp, 1, 3) == 1 - gt1(x.cp, 0, 1),
        gt1(CubieSpec::mult(x, generator_spec(1)).cp, 2, 3) == 1 - gt1(x.cp, 0, 2),
        gt1(CubieSpec::mult(x, generator_spec(1)).cp, 0, 4) == gt1(x.cp, 4, 7),
        gt1(CubieSpec::mult(x, generator_spec(1)).cp, 1, 4) == gt1(x.cp, 1, 7),
        gt1(CubieSpec::mult(x, generator_spec(1)).cp, 2, 4) == gt1(x.cp, 2, 7),
        gt1(CubieSpec::mult(x, generator_spec(1)).cp, 3, 4) == gt1(x.cp, 0, 7),
        gt1(CubieSpec::mult(x, generator_spec(1)).cp, 0, 5) == gt1(x.cp, 4, 5),
        gt1(CubieSpec::mult(x, generator_spec(1)).cp, 1, 5) == gt1(x.cp, 1, 5),
        gt1(CubieSpec::mult(x, generator_spec(1)).cp, 2, 5) == gt1(x.cp, 2, 5),
        gt1(CubieSpec::mult(x, generator_spec(1)).cp, 3, 5) == gt1(x.cp, 0, 5),
        gt1(CubieSpec::mult(x, generator_spec(1)).cp, 4, 5) == 1 - gt1(x.cp, 5, 7),
        gt1(CubieSpec::mult(x, generator_spec(1)).cp, 0, 6) == gt1(x.cp, 4, 6),
        gt1(CubieSpec::mult(x, generator_spec(1)).cp, 1, 6) == gt1(x.cp, 1, 6),
        gt1(CubieSpec::mult(x, generator_spec(1)).cp, 2, 6) == gt1(x.cp, 2, 6),
        gt1(CubieSpec::mult(x, generator_spec(1)).cp, 3, 6) == gt1(x.cp, 0, 6),
        gt1(CubieSpec::mult(x, generator_spec(1)).cp, 4, 6) == 1 - gt1(x.cp, 6, 7),
        gt1(CubieSpec::mult(x, generator_spec(1)).cp, 5, 6) == gt1(x.cp, 5, 6),
        gt1(CubieSpec::mult(x, generator_spec(1)).cp, 0, 7) == 1 - gt1(x.cp, 3, 4),
        gt1(CubieSpec::mult(x, generator_spec(1)).cp, 1, 7) == gt1(x.cp, 1, 3),
        gt1(CubieSpec::mult(x, generator_spec(1)).cp, 2, 7) == gt1(x.cp, 2, 3),
        gt1(CubieSpec::mult(x, generator_spec(1)).cp, 3, 7) == gt1(x.cp, 0, 3),
        gt1(CubieSpec::mult(x, generator_spec(1)).cp, 4, 7) == 1 - gt1(x.cp, 3, 7),
        gt1(CubieSpec::mult(x, generator_spec(1)).cp, 5, 7) == 1 - gt1(x.cp, 3, 5),
        gt1(CubieSpec::mult(x, generator_spec(1)).cp, 6, 7) == 1 - gt1(x.cp, 3, 6),
{
    let y = CubieSpec::mult(x, generator_spec(1));
    assert(y.cp[0] == x.cp[4]);
    assert(y.cp[1] == x.cp[1]);
    assert(y.cp[2] == x.cp[2]);
    assert(y.cp[3] == x.cp[0]);
    assert(y.cp[4] == x.cp[7]);
    assert(y.cp[5] == x.cp[5]);
    assert(y.cp[6] == x.cp[6]);
    assert(y.cp[7] == x.cp[3]);
    assert(gt1(y.cp, 0, 1) == 1 - gt1(x.cp, 1, 4));
    assert(gt1(y.cp, 0, 2) == 1 - gt1(x.cp, 2, 4));
    assert(gt1(y.cp, 1, 2) == gt1(x.cp, 1, 2));
    assert(gt1(y.cp, 0, 3) == 1 - gt1(x.cp, 0, 4));
    assert(gt1(y.cp, 1, 3) == 1 - gt1(x.cp, 0, 1));
    assert(gt1(y.cp, 2, 3) == 1 - gt1(x.cp, 0, 2));
    assert(gt1(y.cp, 0, 4) == gt1(x.cp, 4, 7));
    assert(gt1(y.cp, 1, 4) == gt1(x.cp, 1, 7));
    assert(gt1(y.cp, 2, 4) == gt1(x.cp, 2, 7));
    assert(gt1(y.cp, 3, 4) == gt1(x.cp, 0, 7));
    assert(gt1(y.cp, 0, 5) == gt1(x.cp, 4, 5));
    assert(gt1(y.cp, 1, 5) == gt1(x.cp, 1, 5));
    assert(gt1(y.cp, 2, 5) == gt1(x.cp, 2, 5));
    assert(gt1(y.cp, 3, 5) == gt1(x.cp, 0, 5));
    assert(gt1(y.cp, 4, 5) == 1 - gt1(x.cp, 5, 7));
    assert(gt1(y.cp, 0, 6) == gt1(x.cp, 4, 6));
    assert(gt1(y.cp, 1, 6) == gt1(x.cp, 1, 6));
    assert(gt1(y.cp, 2, 6) == gt1(x.cp, 2, 6));
    assert(gt1(y.cp, 3, 6) == gt1(x.cp, 0, 6));
    assert(gt1(y.cp, 4, 6) == 1 - gt1(x.cp, 6, 7));
    assert(gt1(y.cp, 5, 6) == gt1(x.cp, 5, 6));
    assert(gt1(y.cp, 0, 7) == 1 - gt1(x.cp, 3, 4));
    assert(gt1(y.cp, 1, 7) == gt1(x.cp, 1, 3));
    assert(gt1(y.cp, 2, 7) == gt1(x.cp, 2, 3));
    assert(gt1(y.cp, 3, 7) == gt1(x.cp, 0, 3));
    assert(gt1(y.cp, 4, 7) == 1 - gt1(x.cp, 3, 7));
    assert(gt1(y.cp, 5, 7) == 1 - gt1(x.cp, 3, 5));
    assert(gt1(y.cp, 6, 7) == 1 - gt1(x.cp, 3, 6));
}

#[verifier::rlimit(100)]
#[verifier::spinoff_prover]
proof fn lemma_pair_map_e1(x: CubieSpec)
    requires
        x.wf(),
    ensures
        gt1(CubieSpec::mult(x, generator_spec(1)).ep, 0, 1) == 1 - gt1(x.ep, 1, 8),
        gt1(CubieSpec::mult(x, generator_spec(1)).ep, 0, 2) == 1 - gt1(x.ep, 2, 8),
        gt1(CubieSpec::mult(x, generator_spec(1)).ep, 1, 2) == gt1(x.ep, 1, 2),
        gt1(CubieSpec::mult(x, generator_spec(1)).ep, 0, 3) == 1 - gt1(x.ep, 3, 8),
        gt1(CubieSpec::mult(x, generator_spec(1)).ep, 1, 3) == gt1(x.ep, 1, 3),
        gt1(CubieSpec::mult(x, generator_spec(1)).ep, 2, 3) == gt1(x.ep, 2, 3),
        gt1(CubieSpec::mult(x, generator_spec(1)).ep, 0, 4) == gt1(x.ep, 8, 11),
        gt1(CubieSpec::mult(x, generator_spec(1)).ep, 1, 4) == gt1(x.ep, 1, 11),
        gt1(CubieSpec::mult(x, generator_spec(1)).ep, 2, 4) == gt1(x.ep, 2, 11),
        gt1(CubieSpec::mult(x, generator_spec(1)).ep, 3, 4) == gt1(x.ep, 3, 11),
        gt1(CubieSpec::mult(x, generator_spec(1)).ep, 0, 5) == 1 - gt1(x.ep, 5, 8),
        gt1(CubieSpec::mult(x, generator_spec(1)).ep, 1, 5) == gt1(x.ep, 1, 5),
        gt1(CubieSpec::mult(x, generator_spec(1)).ep, 2, 5) == gt1(x.ep, 2, 5),
        gt1(CubieSpec::mult(x, generator_spec(1)).ep, 3, 5) == gt1(x.ep, 3, 5),
        gt1(CubieSpec::mult(x, generator_spec(1)).ep, 4, 5) == 1 - gt1(x.ep, 5, 11),
        gt1(CubieSpec::mult(x, generator_spec(1)).ep, 0, 6) == 1 - gt1(x.ep, 6, 8),
        gt1(CubieSpec::mult(x, generator_spec(1)).ep, 1, 6) == gt1(x.ep, 1, 6),
        gt1(CubieSpec::mult(x, generator_spec(1)).ep, 2, 6) == gt1(x.ep, 2, 6),
        gt1(CubieSpec::mult(x, generator_spec(1)).ep, 3, 6) == gt1(x.ep, 3, 6),
        gt1(CubieSpec::mult(x, generator_spec(1)).ep, 4, 6) == 1 - gt1(x.ep, 6, 11),
        gt1(CubieSpec::mult(x, generator_spec(1)).ep, 5, 6) == gt1(x.ep, 5, 6),
        gt1(CubieSpec::mult(x, generator_spec(1)).ep, 0, 7) == 1 - gt1(x.ep, 7, 8),
        gt1(CubieSpec::mult(x, generator_spec(1)).ep, 1, 7) == gt1(x.ep, 1, 7),
        gt1(CubieSpec::mult(x, generator_spec(1)).ep, 2, 7) == gt1(x.ep, 2, 7),
        gt1(CubieSpec::mult(x, generator_spec(1)).ep, 3, 7) == gt1(x.ep, 3, 7),
        gt1(CubieSpec::mult(x, generator_spec(1)).ep, 4, 7) == 1 - gt1(x.ep, 7, 11),
        gt1(CubieSpec::mult(x, generator_spec(1)).ep, 5, 7) == gt1(x.ep, 5, 7),
        gt1(CubieSpec::mult(x, generator_spec(1)).ep, 6, 7) == gt1(x.ep, 6, 7),
        gt1(CubieSpec::mult(x, generator_spec(1)).ep, 0, 8) == 1 - gt1(x.ep, 4, 8),
        gt1(CubieSpec::mult(x, generator_spec(1)).ep, 1, 8) == gt1(x.ep, 1, 4),
        gt1(CubieSpec::mult(x, generator_spec(1)).ep, 2, 8) == gt1(x.ep, 2, 4),
        gt1(CubieSpec::mult(x, generator_spec(1)).ep, 3, 8) == gt1(x.ep, 3, 4),
        gt1(CubieSpec::mult(x, generator_spec(1)).ep, 4, 8) == 1 - gt1(x.ep, 4, 11),
        gt1(CubieSpec::mult(x, generator_spec(1)).ep, 5, 8) == 1 - gt1(x.ep, 4, 5),
        gt1(CubieSpec::mult(x, generator_spec(1)).ep, 6, 8) == 1 - gt1(x.ep, 4, 6),
        gt1(CubieSpec::mult(x, generator_spec(1)).ep, 7, 8) == 1 - gt1(x.ep, 4, 7),
        gt1(CubieSpec::mult(x, generator_spec(1)).ep, 0, 9) == gt1(x.ep, 8, 9),
        gt1(CubieSpec::mult(x, generator_spec(1)).ep, 1, 9) == gt1(x.ep, 1, 9),
        gt1(CubieSpec::mult(x, generator_spec(1)).ep, 2, 9) == gt1(x.ep, 2, 9),
        gt1(CubieSpec::mult(x, generator_spec(1)).ep, 3, 9) == gt1(x.ep, 3, 9),
        gt1(CubieSpec::mult(x, generator_spec(1)).ep, 4, 9) == 1 - gt1(x.ep, 9, 11),
        gt1(CubieSpec::mult(x, generator_spec(1)).ep, 5, 9) == gt1(x.ep, 5, 9),
        gt1(CubieSpec::mult(x, generator_spec(1)).ep, 6, 9) == gt1(x.ep, 6, 9),
        gt1(CubieSpec::mult(x, generator_spec(1)).ep, 7, 9) == gt1(x.ep, 7, 9),
        gt1(CubieSpec::mult(x, generator_spec(1)).ep, 8, 9) == gt1(x.ep, 4, 9),
        gt1(CubieSpec::mult(x, generator_spec(1)).ep, 0, 10) == gt1(x.ep, 8, 10),
        gt1(CubieSpec::mult(x, generator_spec(1)).ep, 1, 10) == gt1(x.ep, 1, 10),
        gt1(CubieSpec::mult(x, generator_spec(1)).ep, 2, 10) == gt1(x.ep, 2, 10),
        gt1(CubieSpec::mult(x, generator_spec(1)).ep, 3, 10) == gt1(x.ep, 3, 10),
        gt1(CubieSpec::mult(x, generator_spec(1)).ep, 4, 10) == 1 - gt1(x.ep, 10, 11),
        gt1(CubieSpec::mult(x, generator_spec(1)).ep, 5, 10) == gt1(x.ep, 5, 10),
        gt1(CubieSpec::mult(x, generator_spec(1)).ep, 6, 10) == gt1(x.ep, 6, 10),
        gt1(CubieSpec::mult(x, generator_spec(1)).ep, 7, 10) == gt1(x.ep, 7, 10),
        gt1(CubieSpec::mult(x, generator_spec(1)).ep, 8, 10) == gt1(x.ep, 4, 10),
        gt1(CubieSpec::mult(x, generator_spec(1)).ep, 9, 10) == gt1(x.ep, 9, 10),
        gt1(CubieSpec::mult(x, generator_spec(1)).ep, 0, 11) == 1 - gt1(x.ep, 0, 8),
        gt1(CubieSpec::mult(x, generator_spec(1)).ep, 1, 11) == 1 - gt1(x.ep, 0, 1),
        gt1(CubieSpec::mult(x, generator_spec(1)).ep, 2, 11) == 1 - gt1(x.ep, 0, 2),
        gt1(CubieSpec::mult(x, generator_spec(1)).ep, 3, 11) == 1 - gt1(x.ep, 0, 3),
        gt1(CubieSpec::mult(x, generator_spec(1)).ep, 4, 11) == 1 - gt1(x.ep, 0, 11),
        gt1(CubieSpec::mult(x, generator_spec(1)).ep, 5, 11) == 1 - gt1(x.ep, 0, 5),
        gt1(CubieSpec::mult(x, generator_spec(1)).ep, 6, 11) == 1 - gt1(x.ep, 0, 6),
        gt1(CubieSpec::mult(x, generator_spec(1)).ep, 7, 11) == 1 - gt1(x.ep, 0, 7),
        gt1(CubieSpec::mult(x, generator_spec(1)).ep, 8, 11) == 1 - gt1(x.ep, 0, 4),
        gt1(CubieSpec::mult(x, generator_spec(1)).ep, 9, 11) == 1 - gt1(x.ep, 0, 9),
        gt1(CubieSpec::mult(x, generator_spec(1)).ep, 10, 11) == 1 - gt1(x.ep, 0, 10),
{
    let y = CubieSpec::mult(x, generator_spec(1));
    assert(y.ep[0] == x.ep[8]);
    assert(y.ep[1] == x.ep[1]);
    assert(y.ep[2] == x.ep[2]);
    assert(y.ep[3] == x.ep[3]);
    assert(y.ep[4] == x.ep[11]);
    assert(y.ep[5] == x.ep[5]);
    assert(y.ep[6] == x.ep[6]);
    assert(y.ep[7] == x.ep[7]);
    assert(y.ep[8] == x.ep[4]);
    assert(y.ep[9] == x.ep[9]);
    assert(y.ep[10] == x.ep[10]);
    assert(y.ep[11] == x.ep[0]);
    assert(gt1(y.ep, 0, 1) == 1 - gt1(x.ep, 1, 8));
    assert(gt1(y.ep, 0, 2) == 1 - gt1(x.ep, 2, 8));
    assert(gt1(y.ep, 1, 2) == gt1(x.ep, 1, 2));
    assert(gt1(y.ep, 0, 3) == 1 - gt1(x.ep, 3, 8));
    assert(gt1(y.ep, 1, 3) == gt1(x.ep, 1, 3));
    assert(gt1(y.ep, 2, 3) == gt1(x.ep, 2, 3));
    assert(gt1(y.ep, 0, 4) == gt1(x.ep, 8, 11));
    assert(gt1(y.ep, 1, 4) == gt1(x.ep, 1, 11));
    assert(gt1(y.ep, 2, 4) == gt1(x.ep, 2, 11));
    assert(gt1(y.ep, 3, 4) == gt1(x.ep, 3, 11));
    assert(gt1(y.ep, 0, 5) == 1 - gt1(x.ep, 5, 8));
    assert(gt1(y.ep, 1, 5) == gt1(x.ep, 1, 5));
    assert(gt1(y.ep, 2, 5) == gt1(x.ep, 2, 5));
    assert(gt1(y.ep, 3, 5) == gt1(x.ep, 3, 5));
    assert(gt1(y.ep, 4, 5) == 1 - gt1(x.ep, 5, 11));
    assert(gt1(y.ep, 0, 6) == 1 - gt1(x.ep, 6, 8));
    assert(gt1(y.ep, 1, 6) == gt1(x.ep, 1, 6));
    assert(gt1(y.ep, 2, 6) == gt1(x.ep, 2, 6));
    assert(gt1(y.ep, 3, 6) == gt1(x.ep, 3, 6));
    assert(gt1(y.ep, 4, 6) == 1 - gt1(x.ep, 6, 11));
    assert(gt1(y.ep, 5, 6) == gt1(x.ep, 5, 6));
    assert(gt1(y.ep, 0, 7) == 1 - gt1(x.ep, 7, 8));
    assert(gt1(y.ep, 1, 7) == gt1(x.ep, 1, 7));
    assert(gt1(y.ep, 2, 7) == gt1(x.ep, 2, 7));
    assert(gt1(y.ep, 3, 7) == gt1(x.ep, 3, 7));
    assert(gt1(y.ep, 4, 7) == 1 - gt1(x.ep, 7, 11));
    assert(gt1(y.ep, 5, 7) == gt1(x.ep, 5, 7));
    assert(gt1(y.ep, 6, 7) == gt1(x.ep, 6, 7));
    assert(gt1(y.ep, 0, 8) == 1 - gt1(x.ep, 4, 8));
    assert(gt1(y.ep, 1, 8) == gt1(x.ep, 1, 4));
    assert(gt1(y.ep, 2, 8) == gt1(x.ep, 2, 4));
    assert(gt1(y.ep, 3, 8) == gt1(x.ep, 3, 4));
    assert(gt1(y.ep, 4, 8) == 1 - gt1(x.ep, 4, 11));
    assert(gt1(y.ep, 5, 8) == 1 - gt1(x.ep, 4, 5));
    assert(gt1(y.ep, 6, 8) == 1 - gt1(x.ep, 4, 6));
    assert(gt1(y.ep, 7, 8) == 1 - gt1(x.ep, 4, 7));
    assert(gt1(y.ep, 0, 9) == gt1(x.ep, 8, 9));
    assert(gt1(y.ep, 1, 9) == gt1(x.ep, 1, 9));
    assert(gt1(y.ep, 2, 9) == gt1(x.ep, 2, 9));
    assert(gt1(y.ep, 3, 9) == gt1(x.ep, 3, 9));
    assert(gt1(y.ep, 4, 9) == 1 - gt1(x.ep, 9, 11));
    assert(gt1(y.ep, 5, 9) == gt1(x.ep, 5, 9));
    assert(gt1(y.ep, 6, 9) == gt1(x.ep, 6, 9));
    assert(gt1(y.ep, 7, 9) == gt1(x.ep, 7, 9));
    assert(gt1(y.ep, 8, 9) == gt1(x.ep, 4, 9));
    assert(gt1(y.ep, 0, 10) == gt1(x.ep, 8, 10));
    assert(gt1(y.ep, 1, 10) == gt1(x.ep, 1, 10));
    assert(gt1(y.ep, 2, 10) == gt1(x.ep, 2, 10));
    assert(gt1(y.ep, 3, 10) == gt1(x.ep, 3, 10));
    assert(gt1(y.ep, 4, 10) == 1 - gt1(x.ep, 10, 11));
    assert(gt1(y.ep, 5, 10) == gt1(x.ep, 5, 10));
    assert(gt1(y.ep, 6, 10) == gt1(x.ep, 6, 10));
    assert(gt1(y.ep, 7, 10) == gt1(x.ep, 7, 10));
    assert(gt1(y.ep, 8, 10) == gt1(x.ep, 4, 10));
    assert(gt1(y.ep, 9, 10) == gt1(x.ep, 9, 10));
    assert(gt1(y.ep, 0, 11) == 1 - gt1(x.ep, 0, 8));
    assert(gt1(y.ep, 1, 11) == 1 - gt1(x.ep, 0, 1));
    assert(gt1(y.ep, 2, 11) == 1 - gt1(x.ep, 0, 2));
    assert(gt1(y.ep, 3, 11) == 1 - gt1(x.ep, 0, 3));
    assert(gt1(y.ep, 4, 11) == 1 - gt1(x.ep, 0, 11));
    assert(gt1(y.ep, 5, 11) == 1 - gt1(x.ep, 0, 5));
    assert(gt1(y.ep, 6, 11) == 1 - gt1(x.ep, 0, 6));
    assert(gt1(y.ep, 7, 11) == 1 - gt1(x.ep, 0, 7));
    assert(gt1(y.ep, 8, 11) == 1 - gt1(x.ep, 0, 4));
    assert(gt1(y.ep, 9, 11) == 1 - gt1(x.ep, 0, 9));
    assert(gt1(y.ep, 10, 11) == 1 - gt1(x.ep, 0, 10));
}

#[verifier::rlimit(100)]
#[verifier::spinoff_prover]
proof fn lemma_parity_flip_c1(x: CubieSpec)
    requires
        x.wf(),
    ensures
        corner_parity_of(CubieSpec::mult(x, generator_spec(1))) == (corner_parity_of(x) + 1)
            % 2,
{
    let g = generator_spec(1);
    let y = CubieSpec::mult(x, g);
    lemma_pair_map_c1(x);
    lemma_inv8_as_pairs(x.cp);
    lemma_inv8_as_pairs(y.cp);
    let sc = gt1(x.cp, 1, 4) + gt1(x.cp, 2, 4) + gt1(x.cp, 0, 4) + gt1(x.cp, 0, 1) + gt1(x.cp, 0, 2) + gt1(x.cp, 5, 7) + gt1(x.cp, 6, 7) + gt1(x.cp, 3, 4) + gt1(x.cp, 3, 7) + gt1(x.cp, 3, 5) + gt1(x.cp, 3, 6);
    assert(pair8(y.cp) == pair8(x.cp) + 11 - 2 * sc);
    vstd::arithmetic::div_mod::lemma_mod_multiples_vanish(5 - sc, pair8(x.cp) + 1, 2);
}

#[verifier::rlimit(100)]
#[verifier::spinoff_prover]
proof fn lemma_parity_flip_e1(x: CubieSpec)
    requires
        x.wf(),
    ensures
        edge_parity_of(CubieSpec::mult(x, generator_spec(1))) == (edge_parity_of(x) + 1) % 2,
{
    let g = generator_spec(1);
    let y = CubieSpec::mult(x, g);
    lemma_pair_map_e1(x);
    lemma_inv12_as_pairs(x.ep);
    lemma_inv12_as_pairs(y.ep);
    let se = gt1(x.ep, 1, 8) + gt1(x.ep, 2, 8) + gt1(x.ep, 3, 8) + gt1(x.ep, 5, 8) + gt1(x.ep, 5, 11) + gt1(x.ep, 6, 8) + gt1(x.ep, 6, 11) + gt1(x.ep, 7, 8) + gt1(x.ep, 7, 11) + gt1(x.ep, 4, 8) + gt1(x.ep, 4, 11) + gt1(x.ep, 4, 5) + gt1(x.ep, 4, 6) + gt1(x.ep, 4, 7) + gt1(x.ep, 9, 11) + gt1(x.ep, 10, 11) + gt1(x.ep, 0, 8) + gt1(x.ep, 0, 1) + gt1(x.ep, 0, 2) + gt1(x.ep, 0, 3) + gt1(x.ep, 0, 11) + gt1(x.ep, 0, 5) + gt1(x.ep, 0, 6) + gt1(x.ep, 0, 7) + gt1(x.ep, 0, 4) + gt1(x.ep, 0, 9) + gt1(x.ep, 0, 10);
    assert(pair12(y.ep) == pair12(x.ep) + 27 - 2 * se);
    vstd::arithmetic::div_mod::lemma_mod_multiples_vanish(13 - se, pair12(x.ep) + 1, 2);
}


#[verifier::rlimit(100)]
#[verifier::spinoff_prover]
proof fn lemma_pair_map_c2(x: CubieSpec)
    requires
        x.wf(),
    ensures
        gt1(CubieSpec::mult(x, generator_spec(2)).cp, 0, 1) == gt1(x.cp, 1, 5),
        gt1(CubieSpec::mult(x, generator_spec(2)).cp, 0, 2) == gt1(x.cp, 1, 2),
        gt1(CubieSpec::mult(x, generator_spec(2)).cp, 1, 2) == 1 - gt1(x.cp, 2, 5),
        gt1(CubieSpec::mult(x, generator_spec(2)).cp, 0, 3) == gt1(x.cp, 1, 3),
        gt1(CubieSpec::mult(x, generator_spec(2)).cp, 1, 3) == 1 - gt1(x.cp, 3, 5),
        gt1(CubieSpec::mult(x, generator_spec(2)).cp, 2, 3) == gt1(x.cp, 2, 3),
        gt1(CubieSpec::mult(x, generator_spec(2)).cp, 0, 4) == 1 - gt1(x.cp, 0, 1),
        gt1(CubieSpec::mult(x, generator_spec(2)).cp, 1, 4) == 1 - gt1(x.cp, 0, 5),
        gt1(CubieSpec::mult(x, generator_spec(2)).cp, 2, 4) == 1 - gt1(x.cp, 0, 2),
        gt1(CubieSpec::mult(x, generator_spec(2)).cp, 3, 4) == 1 - gt1(x.cp, 0, 3),
        gt1(CubieSpec::mult(x, generator_spec(2)).cp, 0, 5) == gt1(x.cp, 1, 4),
        gt1(CubieSpec::mult(x, generator_spec(2)).cp, 1, 5) == 1 - gt1(x.cp, 4, 5),
        gt1(CubieSpec::mult(x, generator_spec(2)).cp, 2, 5) == gt1(x.cp, 2, 4),
        gt1(CubieSpec::mult(x, generator_spec(2)).cp, 3, 5) == gt1(x.cp, 3, 4),
        gt1(CubieSpec::mult(x, generator_spec(2)).cp, 4, 5) == gt1(x.cp, 0, 4),
        gt1(CubieSpec::mult(x, generator_spec(2)).cp, 0, 6) == gt1(x.cp, 1, 6),
        gt1(CubieSpec::mult(x, generator_spec(2)).cp, 1, 6) == gt1(x.cp, 5, 6),
        gt1(CubieSpec::mult(x, generator_spec(2)).cp, 2, 6) == gt1(x.cp, 2, 6),
        gt1(CubieSpec::mult(x, generator_spec(2)).cp, 3, 6) == gt1(x.cp, 3, 6),
        gt1(CubieSpec::mult(x, generator_spec(2)).cp, 4, 6) == gt1(x.cp, 0, 6),
        gt1(CubieSpec::mult(x, generator_spec(2)).cp, 5, 6) == gt1(x.cp, 4, 6),
        gt1(CubieSpec::mult(x, generator_spec(2)).cp, 0, 7) == gt1(x.cp, 1, 7),
        gt1(CubieSpec::mult(x, generator_spec(2)).cp, 1, 7) == gt1(x.cp, 5, 7),
        gt1(CubieSpec::mult(x, generator_spec(2)).cp, 2, 7) == gt1(x.cp, 2, 7),
        gt1(CubieSpec::mult(x, generator_spec(2)).cp, 3, 7) == gt1(x.cp, 3, 7),
        gt1(CubieSpec::mult(x, generator_spec(2)).cp, 4, 7) == gt1(x.cp, 0, 7),
        gt1(CubieSpec::mult(x, generator_spec(2)).cp, 5, 7) == gt1(x.cp, 4, 7),
        gt1(CubieSpec::mult(x, generator_spec(2)).cp, 6, 7) == gt1(x.cp, 6, 7),
{
    let y = CubieSpec::mult(x, generator_spec(2));
    assert(y.cp[0] == x.cp[1]);
    assert(y.cp[1] == x.cp[5]);
    assert(y.cp[2] == x.cp[2]);
    assert(y.cp[3] == x.cp[3]);
    assert(y.cp[4] == x.cp[0]);
    assert(y.cp[5] == x.cp[4]);
    assert(y.cp[6] == x.cp[6]);
    assert(y.cp[7] == x.cp[7]);
    assert(gt1(y.cp, 0, 1) == gt1(x.cp, 1, 5));
    assert(gt1(y.cp, 0, 2) == gt1(x.cp, 1, 2));
    assert(gt1(y.cp, 1, 2) == 1 - gt1(x.cp, 2, 5));
    assert(gt1(y.cp, 0, 3) == gt1(x.cp, 1, 3));
    assert(gt1(y.cp, 1, 3) == 1 - gt1(x.cp, 3, 5));
    assert(gt1(y.cp, 2, 3) == gt1(x.cp, 2, 3));
    assert(gt1(y.cp, 0, 4) == 1 - gt1(x.cp, 0, 1));
    assert(gt1(y.cp, 1, 4) == 1 - gt1(x.cp, 0, 5));
    assert(gt1(y.cp, 2, 4) == 1 - gt1(x.cp, 0, 2));
    assert(gt1(y.cp, 3, 4) == 1 - gt1(x.cp, 0, 3));
    assert(gt1(y.cp, 0, 5) == gt1(x.cp, 1, 4));
    assert(gt1(y.cp, 1, 5) == 1 - gt1(x.cp, 4, 5));
    assert(gt1(y.cp, 2, 5) == gt1(x.cp, 2, 4));
    assert(gt1(y.cp, 3, 5) == gt1(x.cp, 3, 4));
    assert(gt1(y.cp, 4, 5) == gt1(x.cp, 0, 4));
    assert(gt1(y.cp, 0, 6) == gt1(x.cp, 1, 6));
    assert(gt1(y.cp, 1, 6) == gt1(x.cp, 5, 6));
    assert(gt1(y.cp, 2, 6) == gt1(x.cp, 2, 6));
    assert(gt1(y.cp, 3, 6) == gt1(x.cp, 3, 6));
    assert(gt1(y.cp, 4, 6) == gt1(x.cp, 0, 6));
    assert(gt1(y.cp, 5, 6) == gt1(x.cp, 4, 6));
    assert(gt1(y.cp, 0, 7) == gt1(x.cp, 1, 7));
    assert(gt1(y.cp, 1, 7) == gt1(x.cp, 5, 7));
    assert(gt1(y.cp, 2, 7) == gt1(x.cp, 2, 7));
    assert(gt1(y.cp, 3, 7) == gt1(x.cp, 3, 7));
    assert(gt1(y.cp, 4, 7) == gt1(x.cp, 0, 7));
    assert(gt1(y.cp, 5, 7) == gt1(x.cp, 4, 7));
    assert(gt1(y.cp, 6, 7) == gt1(x.cp, 6, 7));
}

#[verifier::rlimit(100)]
#[verifier::spinoff_prover]
proof fn lemma_pair_map_e2(x: CubieSpec)
    requires
        x.wf(),
    ensures
        gt1(CubieSpec::mult(x, generator_spec(2)).ep, 0, 1) == gt1(x.ep, 0, 9),
        gt1(CubieSpec::mult(x, generator_spec(2)).ep, 0, 2) == gt1(x.ep, 0, 2),
        gt1(CubieSpec::mult(x, generator_spec(2)).ep, 1, 2) == 1 - gt1(x.ep, 2, 9),
        gt1(CubieSpec::mult(x, generator_spec(2)).ep, 0, 3) == gt1(x.ep, 0, 3),
        gt1(CubieSpec::mult(x, generator_spec(2)).ep, 1, 3) == 1 - gt1(x.ep, 3, 9),
        gt1(CubieSpec::mult(x, generator_spec(2)).ep, 2, 3) == gt1(x.ep, 2, 3),
        gt1(CubieSpec::mult(x, generator_spec(2)).ep, 0, 4) == gt1(x.ep, 0, 4),
        gt1(CubieSpec::mult(x, generator_spec(2)).ep, 1, 4) == 1 - gt1(x.ep, 4, 9),
        gt1(CubieSpec::mult(x, generator_spec(2)).ep, 2, 4) == gt1(x.ep, 2, 4),
        gt1(CubieSpec::mult(x, generator_spec(2)).ep, 3, 4) == gt1(x.ep, 3, 4),
        gt1(CubieSpec::mult(x, generator_spec(2)).ep, 0, 5) == gt1(x.ep, 0, 8),
        gt1(CubieSpec::mult(x, generator_spec(2)).ep, 1, 5) == 1 - gt1(x.ep, 8, 9),
        gt1(CubieSpec::mult(x, generator_spec(2)).ep, 2, 5) == gt1(x.ep, 2, 8),
        gt1(CubieSpec::mult(x, generator_spec(2)).ep, 3, 5) == gt1(x.ep, 3, 8),
        gt1(CubieSpec::mult(x, generator_spec(2)).ep, 4, 5) == gt1(x.ep, 4, 8),
        gt1(CubieSpec::mult(x, generator_spec(2)).ep, 0, 6) == gt1(x.ep, 0, 6),
        gt1(CubieSpec::mult(x, generator_spec(2)).ep, 1, 6) == 1 - gt1(x.ep, 6, 9),
        gt1(CubieSpec::mult(x, generator_spec(2)).ep, 2, 6) == gt1(x.ep, 2, 6),
        gt1(CubieSpec::mult(x, generator_spec(2)).ep, 3, 6) == gt1(x.ep, 3, 6),
        gt1(CubieSpec::mult(x, generator_spec(2)).ep, 4, 6) == gt1(x.ep, 4, 6),
        gt1(CubieSpec::mult(x, generator_spec(2)).ep, 5, 6) == 1 - gt1(x.ep, 6, 8),
        gt1(CubieSpec::mult(x, generator_spec(2)).ep, 0, 7) == gt1(x.ep, 0, 7),
        gt1(CubieSpec::mult(x, generator_spec(2)).ep, 1, 7) == 1 - gt1(x.ep, 7, 9),
        gt1(CubieSpec::mult(x, generator_spec(2)).ep, 2, 7) == gt1(x.ep, 2, 7),
        gt1(CubieSpec::mult(x, generator_spec(2)).ep, 3, 7) == gt1(x.ep, 3, 7),
        gt1(CubieSpec::mult(x, generator_spec(2)).ep, 4, 7) == gt1(x.ep, 4, 7),
        gt1(CubieSpec::mult(x, generator_spec(2)).ep, 5, 7) == 1 - gt1(x.ep, 7, 8),
        gt1(CubieSpec::mult(x, generator_spec(2)).ep, 6, 7) == gt1(x.ep, 6, 7),
        gt1(CubieSpec::mult(x, generator_spec(2)).ep, 0, 8) == gt1(x.ep, 0, 1),
        gt1(CubieSpec::mult(x, generator_spec(2)).ep, 1, 8) == 1 - gt1(x.ep, 1, 9),
        gt1(CubieSpec::mult(x, generator_spec(2)).ep, 2, 8) == 1 - gt1(x.ep, 1, 2),
        gt1(CubieSpec::mult(x, generator_spec(2)).ep, 3, 8) == 1 - gt1(x.ep, 1, 3),
        gt1(CubieSpec::mult(x, generator_spec(2)).ep, 4, 8) == 1 - gt1(x.ep, 1, 4),
        gt1(CubieSpec::mult(x, generator_spec(2)).ep, 5, 8) == 1 - gt1(x.ep, 1, 8),
        gt1(CubieSpec::mult(x, generator_spec(2)).ep, 6, 8) == 1 - gt1(x.ep, 1, 6),
        gt1(CubieSpec::mult(x, generator_spec(2)).ep, 7, 8) == 1 - gt1(x.ep, 1, 7),
        gt1(CubieSpec::mult(x, generator_spec(2)).ep, 0, 9) == gt1(x.ep, 0, 5),
        gt1(CubieSpec::mult(x, generator_spec(2)).ep, 1, 9) == 1 - gt1(x.ep, 5, 9),
        gt1(CubieSpec::mult(x, generator_spec(2)).ep, 2, 9) == gt1(x.ep, 2, 5),
        gt1(CubieSpec::mult(x, generator_spec(2)).ep, 3, 9) == gt1(x.ep, 3, 5),
        gt1(CubieSpec::mult(x, generator_spec(2)).ep, 4, 9) == gt1(x.ep, 4, 5),
        gt1(CubieSpec::mult(x, generator_spec(2)).ep, 5, 9) == 1 - gt1(x.ep, 5, 8),
        gt1(CubieSpec::mult(x, generator_spec(2)).ep, 6, 9) == 1 - gt1(x.ep, 5, 6),
        gt1(CubieSpec::mult(x, generator_spec(2)).ep, 7, 9) == 1 - gt1(x.ep, 5, 7),
        gt1(CubieSpec::mult(x, generator_spec(2)).ep, 8, 9) == gt1(x.ep, 1, 5),
        gt1(CubieSpec::mult(x, generator_spec(2)).ep, 0, 10) == gt1(x.ep, 0, 10),
        gt1(CubieSpec::mult(x, generator_spec(2)).ep, 1, 10) == gt1(x.ep, 9, 10),
        gt1(CubieSpec::mult(x, generator_spec(2)).ep, 2, 10) == gt1(x.ep, 2, 10),
        gt1(CubieSpec::mult(x, generator_spec(2)).ep, 3, 10) == gt1(x.ep, 3, 10),
        gt1(CubieSpec::mult(x, generator_spec(2)).ep, 4, 10) == gt1(x.ep, 4, 10),
        gt1(CubieSpec::mult(x, generator_spec(2)).ep, 5, 10) == gt1(x.ep, 8, 10),
        gt1(CubieSpec::mult(x, generator_spec(2)).ep, 6, 10) == gt1(x.ep, 6, 10),
        gt1(CubieSpec::mult(x, generator_spec(2)).ep, 7, 10) == gt1(x.ep, 7, 10),
        gt1(CubieSpec::mult(x, generator_spec(2)).ep, 8, 10) == gt1(x.ep, 1, 10),
        gt1(CubieSpec::mult(x, generator_spec(2)).ep, 9, 10) == gt1(x.ep, 5, 10),
        gt1(CubieSpec::mult(x, generator_spec(2)).ep, 0, 11) == gt1(x.ep, 0, 11),
        gt1(CubieSpec::mult(x, generator_spec(2)).ep, 1, 11) == gt1(x.ep, 9, 11),
        gt1(CubieSpec::mult(x, generator_spec(2)).ep, 2, 11) == gt1(x.ep, 2, 11),
        gt1(CubieSpec::mult(x, generator_spec(2)).ep, 3, 11) == gt1(x.ep, 3, 11),
        gt1(CubieSpec::mult(x, generator_spec(2)).ep, 4, 11) == gt1(x.ep, 4, 11),
        gt1(CubieSpec::mult(x, generator_spec(2)).ep, 5, 11) == gt1(x.ep, 8, 11),
        gt1(CubieSpec::mult(x, generator_spec(2)).ep, 6, 11) == gt1(x.ep, 6, 11),
        gt1(CubieSpec::mult(x, generator_spec(2)).ep, 7, 11) == gt1(x.ep, 7, 11),
        gt1(CubieSpec::mult(x, generator_spec(2)).ep, 8, 11) == gt1(x.ep, 1, 11),
        gt1(CubieSpec::mult(x, generator_spec(2)).ep, 9, 11) == gt1(x.ep, 5, 11),
        gt1(CubieSpec::mult(x, generator_spec(2)).ep, 10, 11) == gt1(x.ep, 10, 11),
{
    let y = CubieSpec::mult(x, generator_spec(2));
    assert(y.ep[0] == x.ep[0]);
    assert(y.ep[1] == x.ep[9]);
    assert(y.ep[2] == x.ep[2]);
    assert(y.ep[3] == x.ep[3]);
    assert(y.ep[4] == x.ep[4]);
    assert(y.ep[5] == x.ep[8]);
    assert(y.ep[6] == x.ep[6]);
    assert(y.ep[7] == x.ep[7]);
    assert(y.ep[8] == x.ep[1]);
    assert(y.ep[9] == x.ep[5]);
    assert(y.ep[10] == x.ep[10]);
    assert(y.ep[11] == x.ep[11]);
    assert(gt1(y.ep, 0, 1) == gt1(x.ep, 0, 9));
    assert(gt1(y.ep, 0, 2) == gt1(x.ep, 0, 2));
    assert(gt1(y.ep, 1, 2) == 1 - gt1(x.ep, 2, 9));
    assert(gt1(y.ep, 0, 3) == gt1(x.ep, 0, 3));
    assert(gt1(y.ep, 1, 3) == 1 - gt1(x.ep, 3, 9));
    assert(gt1(y.ep, 2, 3) == gt1(x.ep, 2, 3));
    assert(gt1(y.ep, 0, 4) == gt1(x.ep, 0, 4));
    assert(gt1(y.ep, 1, 4) == 1 - gt1(x.ep, 4, 9));
    assert(gt1(y.ep, 2, 4) == gt1(x.ep, 2, 4));
    assert(gt1(y.ep, 3, 4) == gt1(x.ep, 3, 4));
    assert(gt1(y.ep, 0, 5) == gt1(x.ep, 0, 8));
    assert(gt1(y.ep, 1, 5) == 1 - gt1(x.ep, 8, 9));
    assert(gt1(y.ep, 2, 5) == gt1(x.ep, 2, 8));
    assert(gt1(y.ep, 3, 5) == gt1(x.ep, 3, 8));
    assert(gt1(y.ep, 4, 5) == gt1(x.ep, 4, 8));
    assert(gt1(y.ep, 0, 6) == gt1(x.ep, 0, 6));
    assert(gt1(y.ep, 1, 6) == 1 - gt1(x.ep, 6, 9));
    assert(gt1(y.ep, 2, 6) == gt1(x.ep, 2, 6));
    assert(gt1(y.ep, 3, 6) == gt1(x.ep, 3, 6));
    assert(gt1(y.ep, 4, 6) == gt1(x.ep, 4, 6));
    assert(gt1(y.ep, 5, 6) == 1 - gt1(x.ep, 6, 8));
    assert(gt1(y.ep, 0, 7) == gt1(x.ep, 0, 7));
    assert(gt1(y.ep, 1, 7) == 1 - gt1(x.ep, 7, 9));
    assert(gt1(y.ep, 2, 7) == gt1(x.ep, 2, 7));
    assert(gt1(y.ep, 3, 7) == gt1(x.ep, 3, 7));
    assert(gt1(y.ep, 4, 7) == gt1(x.ep, 4, 7));
    assert(gt1(y.ep, 5, 7) == 1 - gt1(x.ep, 7, 8));
    assert(gt1(y.ep, 6, 7) == gt1(x.ep, 6, 7));
    assert(gt1(y.ep, 0, 8) == gt1(x.ep, 0, 1));
    assert(gt1(y.ep, 1, 8) == 1 - gt1(x.ep, 1, 9));
    assert(gt1(y.ep, 2, 8) == 1 - gt1(x.ep, 1, 2));
    assert(gt1(y.ep, 3, 8) == 1 - gt1(x.ep, 1, 3));
    assert(gt1(y.ep, 4, 8) == 1 - gt1(x.ep, 1, 4));
    assert(gt1(y.ep, 5, 8) == 1 - gt1(x.ep, 1, 8));
    assert(gt1(y.ep, 6, 8) == 1 - gt1(x.ep, 1, 6));
    assert(gt1(y.ep, 7, 8) == 1 - gt1(x.ep, 1, 7));
    assert(gt1(y.ep, 0, 9) == gt1(x.ep, 0, 5));
    assert(gt1(y.ep, 1, 9) == 1 - gt1(x.ep, 5, 9));
    assert(gt1(y.ep, 2, 9) == gt1(x.ep, 2, 5));
    assert(gt1(y.ep, 3, 9) == gt1(x.ep, 3, 5));
    assert(gt1(y.ep, 4, 9) == gt1(x.ep, 4, 5));
    assert(gt1(y.ep, 5, 9) == 1 - gt1(x.ep, 5, 8));
    assert(gt1(y.ep, 6, 9) == 1 - gt1(x.ep, 5, 6));
    assert(gt1(y.ep, 7, 9) == 1 - gt1(x.ep, 5, 7));
    assert(gt1(y.ep, 8, 9) == gt1(x.ep, 1, 5));
    assert(gt1(y.ep, 0, 10) == gt1(x.ep, 0, 10));
    assert(gt1(y.ep, 1, 10) == gt1(x.ep, 9, 10));
    assert(gt1(y.ep, 2, 10) == gt1(x.ep, 2, 10));
    assert(gt1(y.ep, 3, 10) == gt1(x.ep, 3, 10));
    assert(gt1(y.ep, 4, 10) == gt1(x.ep, 4, 10));
    assert(gt1(y.ep, 5, 10) == gt1(x.ep, 8, 10));
    assert(gt1(y.ep, 6, 10) == gt1(x.ep, 6, 10));
    assert(gt1(y.ep, 7, 10) == gt1(x.ep, 7, 10));
    assert(gt1(y.ep, 8, 10) == gt1(x.ep, 1, 10));
    assert(gt1(y.ep, 9, 10) == gt1(x.ep, 5, 10));
    assert(gt1(y.ep, 0, 11) == gt1(x.ep, 0, 11));
    assert(gt1(y.ep, 1, 11) == gt1(x.ep, 9, 11));
    assert(gt1(y.ep, 2, 11) == gt1(x.ep, 2, 11));
    assert(gt1(y.ep, 3, 11) == gt1(x.ep, 3, 11));
    assert(gt1(y.ep, 4, 11) == gt1(x.ep, 4, 11));
    assert(gt1(y.ep, 5, 11) == gt1(x.ep, 8, 11));
    assert(gt1(y.ep, 6, 11) == gt1(x.ep, 6, 11));
    assert(gt1(y.ep, 7, 11) == gt1(x.ep, 7, 11));
    assert(gt1(y.ep, 8, 11) == gt1(x.ep, 1, 11));
    assert(gt1(y.ep, 9, 11) == gt1(x.ep, 5, 11));
    assert(gt1(y.ep, 10, 11) == gt1(x.ep, 10, 11));
}

#[verifier::rlimit(100)]
#[verifier::spinoff_prover]
proof fn lemma_parity_flip_c2(x: CubieSpec)
    requires
        x.wf(),
    ensures
        corner_parity_of(CubieSpec::mult(x, generator_spec(2))) == (corner_parity_of(x) + 1)
            % 2,
{
    let g = generator_spec(2);
    let y = CubieSpec::mult(x, g);
    lemma_pair_map_c2(x);
    lemma_inv8_as_pairs(x.cp);
    lemma_inv8_as_pairs(y.cp);
    let sc = gt1(x.cp, 2, 5) + gt1(x.cp, 3, 5) + gt1(x.cp, 0, 1) + gt1(x.cp, 0, 5) + gt1(x.cp, 0, 2) + gt1(x.cp, 0, 3) + gt1(x.cp, 4, 5);
    assert(pair8(y.cp) == pair8(x.cp) + 7 - 2 * sc);
    vstd::arithmetic::div_mod::lemma_mod_multiples_vanish(3 - sc, pair8(x.cp) + 1, 2);
}

#[verifier::rlimit(100)]
#[verifier::spinoff_prover]
proof fn lemma_parity_flip_e2(x: CubieSpec)
    requires
        x.wf(),
    ensures
        edge_parity_of(CubieSpec::mult(x, generator_spec(2))) == (edge_parity_of(x) + 1) % 2,
{
    let g = generator_spec(2);
    let y = CubieSpec::mult(x, g);
    lemma_pair_map_e2(x);
    lemma_inv12_as_pairs(x.ep);
    lemma_inv12_as_pairs(y.ep);
    let se = gt1(x.ep, 2, 9) + gt1(x.ep, 3, 9) + gt1(x.ep, 4, 9) + gt1(x.ep, 8, 9) + gt1(x.ep, 6, 9) + gt1(x.ep, 6, 8) + gt1(x.ep, 7, 9) + gt1(x.ep, 7, 8) + gt1(x.ep, 1, 9) + gt1(x.ep, 1, 2) + gt1(x.ep, 1, 3) + gt1(x.ep, 1, 4) + gt1(x.ep, 1, 8) + gt1(x.ep, 1, 6) + gt1(x.ep, 1, 7) + gt1(x.ep, 5, 9) + gt1(x.ep, 5, 8) + gt1(x.ep, 5, 6) + gt1(x.ep, 5, 7);
    assert(pair12(y.ep) == pair12(x.ep) + 19 - 2 * se);
    vstd::arithmetic::div_mod::lemma_mod_multiples_vanish(9 - se, pair12(x.ep) + 1, 2);
}


#[verifier::rlimit(100)]
#[verifier::spinoff_prover]
proof fn lemma_pair_map_c3(x: CubieSpec)
    requires
        x.wf(),
    ensures
        gt1(CubieSpec::mult(x, generator_spec(3)).cp, 0, 1) == gt1(x.cp, 0, 1),
        gt1(CubieSpec::mult(x, generator_spec(3)).cp, 0, 2) == gt1(x.cp, 0, 2),
        gt1(CubieSpec::mult(x, generator_spec(3)).cp, 1, 2) == gt1(x.cp, 1, 2),
        gt1(CubieSpec::mult(x, generator_spec(3)).cp, 0, 3) == gt1(x.cp, 0, 3),
        gt1(CubieSpec::mult(x, generator_spec(3)).cp, 1, 3) == gt1(x.cp, 1, 3),
        gt1(CubieSpec::mult(x, generator_spec(3)).cp, 2, 3) == gt1(x.cp, 2, 3),
        gt1(CubieSpec::mult(x, generator_spec(3)).cp, 0, 4) == gt1(x.cp, 0, 5),
        gt1(CubieSpec::mult(x, generator_spec(3)).cp, 1, 4) == gt1(x.cp, 1, 5),
        gt1(CubieSpec::mult(x, generator_spec(3)).cp, 2, 4) == gt1(x.cp, 2, 5),
        gt1(CubieSpec::mult(x, generator_spec(3)).cp, 3, 4) == gt1(x.cp, 3, 5),
        gt1(CubieSpec::mult(x, generator_spec(3)).cp, 0, 5) == gt1(x.cp, 0, 6),
        gt1(CubieSpec::mult(x, generator_spec(3)).cp, 1, 5) == gt1(x.cp, 1, 6),
        gt1(CubieSpec::mult(x, generator_spec(3)).cp, 2, 5) == gt1(x.cp, 2, 6),
        gt1(CubieSpec::mult(x, generator_spec(3)).cp, 3, 5) == gt1(x.cp, 3, 6),
        gt1(CubieSpec::mult(x, generator_spec(3)).cp, 4, 5) == gt1(x.cp, 5, 6),
        gt1(CubieSpec::mult(x, generator_spec(3)).cp, 0, 6) == gt1(x.cp, 0, 7),
        gt1(CubieSpec::mult(x, generator_spec(3)).cp, 1, 6) == gt1(x.cp, 1, 7),
        gt1(CubieSpec::mult(x, generator_spec(3)).cp, 2, 6) == gt1(x.cp, 2, 7),
        gt1(CubieSpec::mult(x, generator_spec(3)).cp, 3, 6) == gt1(x.cp, 3, 7),
        gt1(CubieSpec::mult(x, generator_spec(3)).cp, 4, 6) == gt1(x.cp, 5, 7),
        gt1(CubieSpec::mult(x, generator_spec(3)).cp, 5, 6) == gt1(x.cp, 6, 7),
        gt1(CubieSpec::mult(x, generator_spec(3)).cp, 0, 7) == gt1(x.cp, 0, 4),
        gt1(CubieSpec::mult(x, generator_spec(3)).cp, 1, 7) == gt1(x.cp, 1, 4),
        gt1(CubieSpec::mult(x, generator_spec(3)).cp, 2, 7) == gt1(x.cp, 2, 4),
        gt1(CubieSpec::mult(x, generator_spec(3)).cp, 3, 7) == gt1(x.cp, 3, 4),
        gt1(CubieSpec::mult(x, generator_spec(3)).cp, 4, 7) == 1 - gt1(x.cp, 4, 5),
        gt1(CubieSpec::mult(x, generator_spec(3)).cp, 5, 7) == 1 - gt1(x.cp, 4, 6),
        gt1(CubieSpec::mult(x, generator_spec(3)).cp, 6, 7) == 1 - gt1(x.cp, 4, 7),
{
    let y = CubieSpec::mult(x, generator_spec(3));
    assert(y.cp[0] == x.cp[0]);
    assert(y.cp[1] == x.cp[1]);
    assert(y.cp[2] == x.cp[2]);
    assert(y.cp[3] == x.cp[3]);
    assert(y.cp[4] == x.cp[5]);
    assert(y.cp[5] == x.cp[6]);
    assert(y.cp[6] == x.cp[7]);
    assert(y.cp[7] == x.cp[4]);
    assert(gt1(y.cp, 0, 1) == gt1(x.cp, 0, 1));
    assert(gt1(y.cp, 0, 2) == gt1(x.cp, 0, 2));
    assert(gt1(y.cp, 1, 2) == gt1(x.cp, 1, 2));
    assert(gt1(y.cp, 0, 3) == gt1(x.cp, 0, 3));
    assert(gt1(y.cp, 1, 3) == gt1(x.cp, 1, 3));
    assert(gt1(y.cp, 2, 3) == gt1(x.cp, 2, 3));
    assert(gt1(y.cp, 0, 4) == gt1(x.cp, 0, 5));
    assert(gt1(y.cp, 1, 4) == gt1(x.cp, 1, 5));
    assert(gt1(y.cp, 2, 4) == gt1(x.cp, 2, 5));
    assert(gt1(y.cp, 3, 4) == gt1(x.cp, 3, 5));
    assert(gt1(y.cp, 0, 5) == gt1(x.cp, 0, 6));
    assert(gt1(y.cp, 1, 5) == gt1(x.cp, 1, 6));
    assert(gt1(y.cp, 2, 5) == gt1(x.cp, 2, 6));
    assert(gt1(y.cp, 3, 5) == gt1(x.cp, 3, 6));
    assert(gt1(y.cp, 4, 5) == gt1(x.cp, 5, 6));
    assert(gt1(y.cp, 0, 6) == gt1(x.cp, 0, 7));
    assert(gt1(y.cp, 1, 6) == gt1(x.cp, 1, 7));
    assert(gt1(y.cp, 2, 6) == gt1(x.cp, 2, 7));
    assert(gt1(y.cp, 3, 6) == gt1(x.cp, 3, 7));
    assert(gt1(y.cp, 4, 6) == gt1(x.cp, 5, 7));
    assert(gt1(y.cp, 5, 6) == gt1(x.cp, 6, 7));
    assert(gt1(y.cp, 0, 7) == gt1(x.cp, 0, 4));
    assert(gt1(y.cp, 1, 7) == gt1(x.cp, 1, 4));
    assert(gt1(y.cp, 2, 7) == gt1(x.cp, 2, 4));
    assert(gt1(y.cp, 3, 7) == gt1(x.cp, 3, 4));
    assert(gt1(y.cp, 4, 7) == 1 - gt1(x.cp, 4, 5));
    assert(gt1(y.cp, 5, 7) == 1 - gt1(x.cp, 4, 6));
    assert(gt1(y.cp, 6, 7) == 1 - gt1(x.cp, 4, 7));
}

#[verifier::rlimit(100)]
#[verifier::spinoff_prover]
proof fn lemma_pair_map_e3(x: CubieSpec)
    requires
        x.wf(),
    ensures
        gt1(CubieSpec::mult(x, generator_spec(3)).ep, 0, 1) == gt1(x.ep, 0, 1),
        gt1(CubieSpec::mult(x, generator_spec(3)).ep, 0, 2) == gt1(x.ep, 0, 2),
        gt1(CubieSpec::mult(x, generator_spec(3)).ep, 1, 2) == gt1(x.ep, 1, 2),
        gt1(CubieSpec::mult(x, generator_spec(3)).ep, 0, 3) == gt1(x.ep, 0, 3),
        gt1(CubieSpec::mult(x, generator_spec(3)).ep, 1, 3) == gt1(x.ep, 1, 3),
        gt1(CubieSpec::mult(x, generator_spec(3)).ep, 2, 3) == gt1(x.ep, 2, 3),
        gt1(CubieSpec::mult(x, generator_spec(3)).ep, 0, 4) == gt1(x.ep, 0, 5),
        gt1(CubieSpec::mult(x, generator_spec(3)).ep, 1, 4) == gt1(x.ep, 1, 5),
        gt1(CubieSpec::mult(x, generator_spec(3)).ep, 2, 4) == gt1(x.ep, 2, 5),
        gt1(CubieSpec::mult(x, generator_spec(3)).ep, 3, 4) == gt1(x.ep, 3, 5),
        gt1(CubieSpec::mult(x, generator_spec(3)).ep, 0, 5) == gt1(x.ep, 0, 6),
        gt1(CubieSpec::mult(x, generator_spec(3)).ep, 1, 5) == gt1(x.ep, 1, 6),
        gt1(CubieSpec::mult(x, generator_spec(3)).ep, 2, 5) == gt1(x.ep, 2, 6),
        gt1(CubieSpec::mult(x, generator_spec(3)).ep, 3, 5) == gt1(x.ep, 3, 6),
        gt1(CubieSpec::mult(x, generator_spec(3)).ep, 4, 5) == gt1(x.ep, 5, 6),
        gt1(CubieSpec::mult(x, generator_spec(3)).ep, 0, 6) == gt1(x.ep, 0, 7),
        gt1(CubieSpec::mult(x, generator_spec(3)).ep, 1, 6) == gt1(x.ep, 1, 7),
        gt1(CubieSpec::mult(x, generator_spec(3)).ep, 2, 6) == gt1(x.ep, 2, 7),
        gt1(CubieSpec::mult(x, generator_spec(3)).ep, 3, 6) == gt1(x.ep, 3, 7),
        gt1(CubieSpec::mult(x, generator_spec(3)).ep, 4, 6) == gt1(x.ep, 5, 7),
        gt1(CubieSpec::mult(x, generator_spec(3)).ep, 5, 6) == gt1(x.ep, 6, 7),
        gt1(CubieSpec::mult(x, generator_spec(3)).ep, 0, 7) == gt1(x.ep, 0, 4),
        gt1(CubieSpec::mult(x, generator_spec(3)).ep, 1, 7) == gt1(x.ep, 1, 4),
        gt1(CubieSpec::mult(x, generator_spec(3)).ep, 2, 7) == gt1(x.ep, 2, 4),
        gt1(CubieSpec::mult(x, generator_spec(3)).ep, 3, 7) == gt1(x.ep, 3, 4),
        gt1(CubieSpec::mult(x, generator_spec(3)).ep, 4, 7) == 1 - gt1(x.ep, 4, 5),
        gt1(CubieSpec::mult(x, generator_spec(3)).ep, 5, 7) == 1 - gt1(x.ep, 4, 6),
        gt1(CubieSpec::mult(x, generator_spec(3)).ep, 6, 7) == 1 - gt1(x.ep, 4, 7),
        gt1(CubieSpec::mult(x, generator_spec(3)).ep, 0, 8) == gt1(x.ep, 0, 8),
        gt1(CubieSpec::mult(x, generator_spec(3)).ep, 1, 8) == gt1(x.ep, 1, 8),
        gt1(CubieSpec::mult(x, generator_spec(3)).ep, 2, 8) == gt1(x.ep, 2, 8),
        gt1(CubieSpec::mult(x, generator_spec(3)).ep, 3, 8) == gt1(x.ep, 3, 8),
        gt1(CubieSpec::mult(x, generator_spec(3)).ep, 4, 8) == gt1(x.ep, 5, 8),
        gt1(CubieSpec::mult(x, generator_spec(3)).ep, 5, 8) == gt1(x.ep, 6, 8),
        gt1(CubieSpec::mult(x, generator_spec(3)).ep, 6, 8) == gt1(x.ep, 7, 8),
        gt1(CubieSpec::mult(x, generator_spec(3)).ep, 7, 8) == gt1(x.ep, 4, 8),
        gt1(CubieSpec::mult(x, generator_spec(3)).ep, 0, 9) == gt1(x.ep, 0, 9),
        gt1(CubieSpec::mult(x, generator_spec(3)).ep, 1, 9) == gt1(x.ep, 1, 9),
        gt1(CubieSpec::mult(x, generator_spec(3)).ep, 2, 9) == gt1(x.ep, 2, 9),
        gt1(CubieSpec::mult(x, generator_spec(3)).ep, 3, 9) == gt1(x.ep, 3, 9),
        gt1(CubieSpec::mult(x, generator_spec(3)).ep, 4, 9) == gt1(x.ep, 5, 9),
        gt1(CubieSpec::mult(x, generator_spec(3)).ep, 5, 9) == gt1(x.ep, 6, 9),
        gt1(CubieSpec::mult(x, generator_spec(3)).ep, 6, 9) == gt1(x.ep, 7, 9),
        gt1(CubieSpec::mult(x, generator_spec(3)).ep, 7, 9) == gt1(x.ep, 4, 9),
        gt1(CubieSpec::mult(x, generator_spec(3)).ep, 8, 9) == gt1(x.ep, 8, 9),
        gt1(CubieSpec::mult(x, generator_spec(3)).ep, 0, 10) == gt1(x.ep, 0, 10),
        gt1(CubieSpec::mult(x, generator_spec(3)).ep, 1, 10) == gt1(x.ep, 1, 10),
        gt1(CubieSpec::mult(x, generator_spec(3)).ep, 2, 10) == gt1(x.ep, 2, 10),
        gt1(CubieSpec::mult(x, generator_spec(3)).ep, 3, 10) == gt1(x.ep, 3, 10),
        gt1(CubieSpec::mult(x, generator_spec(3)).ep, 4, 10) == gt1(x.ep, 5, 10),
        gt1(CubieSpec::mult(x, generator_spec(3)).ep, 5, 10) == gt1(x.ep, 6, 10),
        gt1(CubieSpec::mult(x, generator_spec(3)).ep, 6, 10) == gt1(x.ep, 7, 10),
        gt1(CubieSpec::mult(x, generator_spec(3)).ep, 7, 10) == gt1(x.ep, 4, 10),
        gt1(CubieSpec::mult(x, generator_spec(3)).ep, 8, 10) == gt1(x.ep, 8, 10),
        gt1(CubieSpec::mult(x, generator_spec(3)).ep, 9, 10) == gt1(x.ep, 9, 10),
        gt1(CubieSpec::mult(x, generator_spec(3)).ep, 0, 11) == gt1(x.ep, 0, 11),
        gt1(CubieSpec::mult(x, generator_spec(3)).ep, 1, 11) == gt1(x.ep, 1, 11),
        gt1(CubieSpec::mult(x, generator_spec(3)).ep, 2, 11) == gt1(x.ep, 2, 11),
        gt1(CubieSpec::mult(x, generator_spec(3)).ep, 3, 11) == gt1(x.ep, 3, 11),
        gt1(CubieSpec::mult(x, generator_spec(3)).ep, 4, 11) == gt1(x.ep, 5, 11),
        gt1(CubieSpec::mult(x, generator_spec(3)).ep, 5, 11) == gt1(x.ep, 6, 11),
        gt1(CubieSpec::mult(x, generator_spec(3)).ep, 6, 11) == gt1(x.ep, 7, 11),
        gt1(CubieSpec::mult(x, generator_spec(3)).ep, 7, 11) == gt1(x.ep, 4, 11),
        gt1(CubieSpec::mult(x, generator_spec(3)).ep, 8, 11) == gt1(x.ep, 8, 11),
        gt1(CubieSpec::mult(x, generator_spec(3)).ep, 9, 11) == gt1(x.ep, 9, 11),
        gt1(CubieSpec::mult(x, generator_spec(3)).ep, 10, 11) == gt1(x.ep, 10, 11),
{
    let y = CubieSpec::mult(x, generator_spec(3));
    assert(y.ep[0] == x.ep[0]);
    assert(y.ep[1] == x.ep[1]);
    assert(y.ep[2] == x.ep[2]);
    assert(y.ep[3] == x.ep[3]);
    assert(y.ep[4] == x.ep[5]);
    assert(y.ep[5] == x.ep[6]);
    assert(y.ep[6] == x.ep[7]);
    assert(y.ep[7] == x.ep[4]);
    assert(y.ep[8] == x.ep[8]);
    assert(y.ep[9] == x.ep[9]);
    assert(y.ep[10] == x.ep[10]);
    assert(y.ep[11] == x.ep[11]);
    assert(gt1(y.ep, 0, 1) == gt1(x.ep, 0, 1));
    assert(gt1(y.ep, 0, 2) == gt1(x.ep, 0, 2));
    assert(gt1(y.ep, 1, 2) == gt1(x.ep, 1, 2));
    assert(gt1(y.ep, 0, 3) == gt1(x.ep, 0, 3));
    assert(gt1(y.ep, 1, 3) == gt1(x.ep, 1, 3));
    assert(gt1(y.ep, 2, 3) == gt1(x.ep, 2, 3));
    assert(gt1(y.ep, 0, 4) == gt1(x.ep, 0, 5));
    assert(gt1(y.ep, 1, 4) == gt1(x.ep, 1, 5));
    assert(gt1(y.ep, 2, 4) == gt1(x.ep, 2, 5));
    assert(gt1(y.ep, 3, 4) == gt1(x.ep, 3, 5));
    assert(gt1(y.ep, 0, 5) == gt1(x.ep, 0, 6));
    assert(gt1(y.ep, 1, 5) == gt1(x.ep, 1, 6));
    assert(gt1(y.ep, 2, 5) == gt1(x.ep, 2, 6));
    assert(gt1(y.ep, 3, 5) == gt1(x.ep, 3, 6));
    assert(gt1(y.ep, 4, 5) == gt1(x.ep, 5, 6));
    assert(gt1(y.ep, 0, 6) == gt1(x.ep, 0, 7));
    assert(gt1(y.ep, 1, 6) == gt1(x.ep, 1, 7));
    assert(gt1(y.ep, 2, 6) == gt1(x.ep, 2, 7));
    assert(gt1(y.ep, 3, 6) == gt1(x.ep, 3, 7));
    assert(gt1(y.ep, 4, 6) == gt1(x.ep, 5, 7));
    assert(gt1(y.ep, 5, 6) == gt1(x.ep, 6, 7));
    assert(gt1(y.ep, 0, 7) == gt1(x.ep, 0, 4));
    assert(gt1(y.ep, 1, 7) == gt1(x.ep, 1, 4));
    assert(gt1(y.ep, 2, 7) == gt1(x.ep, 2, 4));
    assert(gt1(y.ep, 3, 7) == gt1(x.ep, 3, 4));
    assert(gt1(y.ep, 4, 7) == 1 - gt1(x.ep, 4, 5));
    assert(gt1(y.ep, 5, 7) == 1 - gt1(x.ep, 4, 6));
    assert(gt1(y.ep, 6, 7) == 1 - gt1(x.ep, 4, 7));
    assert(gt1(y.ep, 0, 8) == gt1(x.ep, 0, 8));
    assert(gt1(y.ep, 1, 8) == gt1(x.ep, 1, 8));
    assert(gt1(y.ep, 2, 8) == gt1(x.ep, 2, 8));
    assert(gt1(y.ep, 3, 8) == gt1(x.ep, 3, 8));
    assert(gt1(y.ep, 4, 8) == gt1(x.ep, 5, 8));
    assert(gt1(y.ep, 5, 8) == gt1(x.ep, 6, 8));
    assert(gt1(y.ep, 6, 8) == gt1(x.ep, 7, 8));
    assert(gt1(y.ep, 7, 8) == gt1(x.ep, 4, 8));
    assert(gt1(y.ep, 0, 9) == gt1(x.ep, 0, 9));
    assert(gt1(y.ep, 1, 9) == gt1(x.ep, 1, 9));
    assert(gt1(y.ep, 2, 9) == gt1(x.ep, 2, 9));
    assert(gt1(y.ep, 3, 9) == gt1(x.ep, 3, 9));
    assert(gt1(y.ep, 4, 9) == gt1(x.ep, 5, 9));
    assert(gt1(y.ep, 5, 9) == gt1(x.ep, 6, 9));
    assert(gt1(y.ep, 6, 9) == gt1(x.ep, 7, 9));
    assert(gt1(y.ep, 7, 9) == gt1(x.ep, 4, 9));
    assert(gt1(y.ep, 8, 9) == gt1(x.ep, 8, 9));
    assert(gt1(y.ep, 0, 10) == gt1(x.ep, 0, 10));
    assert(gt1(y.ep, 1, 10) == gt1(x.ep, 1, 10));
    assert(gt1(y.ep, 2, 10) == gt1(x.ep, 2, 10));
    assert(gt1(y.ep, 3, 10) == gt1(x.ep, 3, 10));
    assert(gt1(y.ep, 4, 10) == gt1(x.ep, 5, 10));
    assert(gt1(y.ep, 5, 10) == gt1(x.ep, 6, 10));
    assert(gt1(y.ep, 6, 10) == gt1(x.ep, 7, 10));
    assert(gt1(y.ep, 7, 10) == gt1(x.ep, 4, 10));
    assert(gt1(y.ep, 8, 10) == gt1(x.ep, 8, 10));
    assert(gt1(y.ep, 9, 10) == gt1(x.ep, 9, 10));
    assert(gt1(y.ep, 0, 11) == gt1(x.ep, 0, 11));
    assert(gt1(y.ep, 1, 11) == gt1(x.ep, 1, 11));
    assert(gt1(y.ep, 2, 11) == gt1(x.ep, 2, 11));
    assert(gt1(y.ep, 3, 11) == gt1(x.ep, 3, 11));
    assert(gt1(y.ep, 4, 11) == gt1(x.ep, 5, 11));
    assert(gt1(y.ep, 5, 11) == gt1(x.ep, 6, 11));
    assert(gt1(y.ep, 6, 11) == gt1(x.ep, 7, 11));
    assert(gt1(y.ep, 7, 11) == gt1(x.ep, 4, 11));
    assert(gt1(y.ep, 8, 11) == gt1(x.ep, 8, 11));
    assert(gt1(y.ep, 9, 11) == gt1(x.ep, 9, 11));
    assert(gt1(y.ep, 10, 11) == gt1(x.ep, 10, 11));
}

#[verifier::rlimit(100)]
#[verifier::spinoff_prover]
proof fn lemma_parity_flip_c3(x: CubieSpec)
    requires
        x.wf(),
    ensures
        corner_parity_of(CubieSpec::mult(x, generator_spec(3))) == (corner_parity_of(x) + 1)
            % 2,
{
    let g = generator_spec(3);
    let y = CubieSpec::mult(x, g);
    lemma_pair_map_c3(x);
    lemma_inv8_as_pairs(x.cp);
    lemma_inv8_as_pairs(y.cp);
    let sc = gt1(x.cp, 4, 5) + gt1(x.cp, 4, 6) + gt1(x.cp, 4, 7);
    assert(pair8(y.cp) == gt1(x.cp, 0, 1) + gt1(x.cp, 0, 2) + gt1(x.cp, 1, 2) + gt1(x.cp, 0, 3) + gt1(x.cp, 1, 3) + gt1(x.cp, 2, 3) + gt1(x.cp, 0, 5) + gt1(x.cp, 1, 5) + gt1(x.cp, 2, 5) + gt1(x.cp, 3, 5) + gt1(x.cp, 0, 6) + gt1(x.cp, 1, 6) + gt1(x.cp, 2, 6) + gt1(x.cp, 3, 6) + gt1(x.cp, 5, 6) + gt1(x.cp, 0, 7) + gt1(x.cp, 1, 7) + gt1(x.cp, 2, 7) + gt1(x.cp, 3, 7) + gt1(x.cp, 5, 7) + gt1(x.cp, 6, 7) + gt1(x.cp, 0, 4) + gt1(x.cp, 1, 4) + gt1(x.cp, 2, 4) + gt1(x.cp, 3, 4) + (1 - gt1(x.cp, 4, 5)) + (1 - gt1(x.cp, 4, 6)) + (1 - gt1(x.cp, 4, 7)));
    assert(pair8(y.cp) == pair8(x.cp) + 3 - 2 * sc);
    vstd::arithmetic::div_mod::lemma_mod_multiples_vanish(1 - sc, pair8(x.cp) + 1, 2);
}

#[verifier::rlimit(100)]
#[verifier::spinoff_prover]
proof fn lemma_parity_flip_e3(x: CubieSpec)
    requires
        x.wf(),
    ensures
        edge_parity_of(CubieSpec::mult(x, generator_spec(3))) == (edge_parity_of(x) + 1) % 2,
{
    let g = generator_spec(3);
    let y = CubieSpec::mult(x, g);
    lemma_pair_map_e3(x);
    lemma_inv12_as_pairs(x.ep);
    lemma_inv12_as_pairs(y.ep);
    let se = gt1(x.ep, 4, 5) + gt1(x.ep, 4, 6) + gt1(x.ep, 4, 7);
    assert(pair12(y.ep) == gt1(x.ep, 0, 1) + gt1(x.ep, 0, 2) + gt1(x.ep, 1, 2) + gt1(x.ep, 0, 3) + gt1(x.ep, 1, 3) + gt1(x.ep, 2, 3) + gt1(x.ep, 0, 5) + gt1(x.ep, 1, 5) + gt1(x.ep, 2, 5) + gt1(x.ep, 3, 5) + gt1(x.ep, 0, 6) + gt1(x.ep, 1, 6) + gt1(x.ep, 2, 6) + gt1(x.ep, 3, 6) + gt1(x.ep, 5, 6) + gt1(x.ep, 0, 7) + gt1(x.ep, 1, 7) + gt1(x.ep, 2, 7) + gt1(x.ep, 3, 7) + gt1(x.ep, 5, 7) + gt1(x.ep, 6, 7) + gt1(x.ep, 0, 4) + gt1(x.ep, 1, 4) + gt1(x.ep, 2, 4) + gt1(x.ep, 3, 4) + (1 - gt1(x.ep, 4, 5)) + (1 - gt1(x.ep, 4, 6)) + (1 - gt1(x.ep, 4, 7)) + gt1(x.ep, 0, 8) + gt1(x.ep, 1, 8) + gt1(x.ep, 2, 8) + gt1(x.ep, 3, 8) + gt1(x.ep, 5, 8) + gt1(x.ep, 6, 8) + gt1(x.ep, 7, 8) + gt1(x.ep, 4, 8) + gt1(x.ep, 0, 9) + gt1(x.ep, 1, 9) + gt1(x.ep, 2, 9) + gt1(x.ep, 3, 9) + gt1(x.ep, 5, 9) + gt1(x.ep, 6, 9) + gt1(x.ep, 7, 9) + gt1(x.ep, 4, 9) + gt1(x.ep, 8, 9) + gt1(x.ep, 0, 10) + gt1(x.ep, 1, 10) + gt1(x.ep, 2, 10) + gt1(x.ep, 3, 10) + gt1(x.ep, 5, 10) + gt1(x.ep, 6, 10) + gt1(x.ep, 7, 10) + gt1(x.ep, 4, 10) + gt1(x.ep, 8, 10) + gt1(x.ep, 9, 10) + gt1(x.ep, 0, 11) + gt1(x.ep, 1, 11) + gt1(x.ep, 2, 11) + gt1(x.ep, 3, 11) + gt1(x.ep, 5, 11) + gt1(x.ep, 6, 11) + gt1(x.ep, 7, 11) + gt1(x.ep, 4, 11) + gt1(x.ep, 8, 11) + gt1(x.ep, 9, 11) + gt1(x.ep, 10, 11));
    assert(pair12(y.ep) == pair12(x.ep) + 3 - 2 * se);
    vstd::arithmetic::div_mod::lemma_mod_multiples_vanish(1 - se, pair12(x.ep) + 1, 2);
}


#[verifier::rlimit(100)]
#[verifier::spinoff_prover]
proof fn lemma_pair_map_c4(x: CubieSpec)
    requires
        x.wf(),
    ensures
        gt1(CubieSpec::mult(x, generator_spec(4)).cp, 0, 1) == gt1(x.cp, 0, 2),
        gt1(CubieSpec::mult(x, generator_spec(4)).cp, 0, 2) == gt1(x.cp, 0, 6),
        gt1(CubieSpec::mult(x, generator_spec(4)).cp, 1, 2) == gt1(x.cp, 2, 6),
        gt1(CubieSpec::mult(x, generator_spec(4)).cp, 0, 3) == gt1(x.cp, 0, 3),
        gt1(CubieSpec::mult(x, generator_spec(4)).cp, 1, 3) == gt1(x.cp, 2, 3),
        gt1(CubieSpec::mult(x, generator_spec(4)).cp, 2, 3) == 1 - gt1(x.cp, 3, 6),
        gt1(CubieSpec::mult(x, generator_spec(4)).cp, 0, 4) == gt1(x.cp, 0, 4),
        gt1(CubieSpec::mult(x, generator_spec(4)).cp, 1, 4) == gt1(x.cp, 2, 4),
        gt1(CubieSpec::mult(x, generator_spec(4)).cp, 2, 4) == 1 - gt1(x.cp, 4, 6),
        gt1(CubieSpec::mult(x, generator_spec(4)).cp, 3, 4) == gt1(x.cp, 3, 4),
        gt1(CubieSpec::mult(x, generator_spec(4)).cp, 0, 5) == gt1(x.cp, 0, 1),
        gt1(CubieSpec::mult(x, generator_spec(4)).cp, 1, 5) == 1 - gt1(x.cp, 1, 2),
        gt1(CubieSpec::mult(x, generator_spec(4)).cp, 2, 5) == 1 - gt1(x.cp, 1, 6),
        gt1(CubieSpec::mult(x, generator_spec(4)).cp, 3, 5) == 1 - gt1(x.cp, 1, 3),
        gt1(CubieSpec::mult(x, generator_spec(4)).cp, 4, 5) == 1 - gt1(x.cp, 1, 4),
        gt1(CubieSpec::mult(x, generator_spec(4)).cp, 0, 6) == gt1(x.cp, 0, 5),
        gt1(CubieSpec::mult(x, generator_spec(4)).cp, 1, 6) == gt1(x.cp, 2, 5),
        gt1(CubieSpec::mult(x, generator_spec(4)).cp, 2, 6) == 1 - gt1(x.cp, 5, 6),
        gt1(CubieSpec::mult(x, generator_spec(4)).cp, 3, 6) == gt1(x.cp, 3, 5),
        gt1(CubieSpec::mult(x, generator_spec(4)).cp, 4, 6) == gt1(x.cp, 4, 5),
        gt1(CubieSpec::mult(x, generator_spec(4)).cp, 5, 6) == gt1(x.cp, 1, 5),
        gt1(CubieSpec::mult(x, generator_spec(4)).cp, 0, 7) == gt1(x.cp, 0, 7),
        gt1(CubieSpec::mult(x, generator_spec(4)).cp, 1, 7) == gt1(x.cp, 2, 7),
        gt1(CubieSpec::mult(x, generator_spec(4)).cp, 2, 7) == gt1(x.cp, 6, 7),
        gt1(CubieSpec::mult(x, generator_spec(4)).cp, 3, 7) == gt1(x.cp, 3, 7),
        gt1(CubieSpec::mult(x, generator_spec(4)).cp, 4, 7) == gt1(x.cp, 4, 7),
        gt1(CubieSpec::mult(x, generator_spec(4)).cp, 5, 7) == gt1(x.cp, 1, 7),
        gt1(CubieSpec::mult(x, generator_spec(4)).cp, 6, 7) == gt1(x.cp, 5, 7),
{
    let y = CubieSpec::mult(x, generator_spec(4));
    assert(y.cp[0] == x.cp[0]);
    assert(y.cp[1] == x.cp[2]);
    assert(y.cp[2] == x.cp[6]);
    assert(y.cp[3] == x.cp[3]);
    assert(y.cp[4] == x.cp[4]);
    assert(y.cp[5] == x.cp[1]);
    assert(y.cp[6] == x.cp[5]);
    assert(y.cp[7] == x.cp[7]);
    assert(gt1(y.cp, 0, 1) == gt1(x.cp, 0, 2));
    assert(gt1(y.cp, 0, 2) == gt1(x.cp, 0, 6));
    assert(gt1(y.cp, 1, 2) == gt1(x.cp, 2, 6));
    assert(gt1(y.cp, 0, 3) == gt1(x.cp, 0, 3));
    assert(gt1(y.cp, 1, 3) == gt1(x.cp, 2, 3));
    assert(gt1(y.cp, 2, 3) == 1 - gt1(x.cp, 3, 6));
    assert(gt1(y.cp, 0, 4) == gt1(x.cp, 0, 4));
    assert(gt1(y.cp, 1, 4) == gt1(x.cp, 2, 4));
    assert(gt1(y.cp, 2, 4) == 1 - gt1(x.cp, 4, 6));
    assert(gt1(y.cp, 3, 4) == gt1(x.cp, 3, 4));
    assert(gt1(y.cp, 0, 5) == gt1(x.cp, 0, 1));
    assert(gt1(y.cp, 1, 5) == 1 - gt1(x.cp, 1, 2));
    assert(gt1(y.cp, 2, 5) == 1 - gt1(x.cp, 1, 6));
    assert(gt1(y.cp, 3, 5) == 1 - gt1(x.cp, 1, 3));
    assert(gt1(y.cp, 4, 5) == 1 - gt1(x.cp, 1, 4));
    assert(gt1(y.cp, 0, 6) == gt1(x.cp, 0, 5));
    assert(gt1(y.cp, 1, 6) == gt1(x.cp, 2, 5));
    assert(gt1(y.cp, 2, 6) == 1 - gt1(x.cp, 5, 6));
    assert(gt1(y.cp, 3, 6) == gt1(x.cp, 3, 5));
    assert(gt1(y.cp, 4, 6) == gt1(x.cp, 4, 5));
    assert(gt1(y.cp, 5, 6) == gt1(x.cp, 1, 5));
    assert(gt1(y.cp, 0, 7) == gt1(x.cp, 0, 7));
    assert(gt1(y.cp, 1, 7) == gt1(x.cp, 2, 7));
    assert(gt1(y.cp, 2, 7) == gt1(x.cp, 6, 7));
    assert(gt1(y.cp, 3, 7) == gt1(x.cp, 3, 7));
    assert(gt1(y.cp, 4, 7) == gt1(x.cp, 4, 7));
    assert(gt1(y.cp, 5, 7) == gt1(x.cp, 1, 7));
    assert(gt1(y.cp, 6, 7) == gt1(x.cp, 5, 7));
}

#[verifier::rlimit(100)]
#[verifier::spinoff_prover]
proof fn lemma_pair_map_e4(x: CubieSpec)
    requires
        x.wf(),
    ensures
        gt1(CubieSpec::mult(x, generator_spec(4)).ep, 0, 1) == gt1(x.ep, 0, 1),
        gt1(CubieSpec::mult(x, generator_spec(4)).ep, 0, 2) == gt1(x.ep, 0, 10),
        gt1(CubieSpec::mult(x, generator_spec(4)).ep, 1, 2) == gt1(x.ep, 1, 10),
        gt1(CubieSpec::mult(x, generator_spec(4)).ep, 0, 3) == gt1(x.ep, 0, 3),
        gt1(CubieSpec::mult(x, generator_spec(4)).ep, 1, 3) == gt1(x.ep, 1, 3),
        gt1(CubieSpec::mult(x, generator_spec(4)).ep, 2, 3) == 1 - gt1(x.ep, 3, 10),
        gt1(CubieSpec::mult(x, generator_spec(4)).ep, 0, 4) == gt1(x.ep, 0, 4),
        gt1(CubieSpec::mult(x, generator_spec(4)).ep, 1, 4) == gt1(x.ep, 1, 4),
        gt1(CubieSpec::mult(x, generator_spec(4)).ep, 2, 4) == 1 - gt1(x.ep, 4, 10),
        gt1(CubieSpec::mult(x, generator_spec(4)).ep, 3, 4) == gt1(x.ep, 3, 4),
        gt1(CubieSpec::mult(x, generator_spec(4)).ep, 0, 5) == gt1(x.ep, 0, 5),
        gt1(CubieSpec::mult(x, generator_spec(4)).ep, 1, 5) == gt1(x.ep, 1, 5),
        gt1(CubieSpec::mult(x, generator_spec(4)).ep, 2, 5) == 1 - gt1(x.ep, 5, 10),
        gt1(CubieSpec::mult(x, generator_spec(4)).ep, 3, 5) == gt1(x.ep, 3, 5),
        gt1(CubieSpec::mult(x, generator_spec(4)).ep, 4, 5) == gt1(x.ep, 4, 5),
        gt1(CubieSpec::mult(x, generator_spec(4)).ep, 0, 6) == gt1(x.ep, 0, 9),
        gt1(CubieSpec::mult(x, generator_spec(4)).ep, 1, 6) == gt1(x.ep, 1, 9),
        gt1(CubieSpec::mult(x, generator_spec(4)).ep, 2, 6) == 1 - gt1(x.ep, 9, 10),
        gt1(CubieSpec::mult(x, generator_spec(4)).ep, 3, 6) == gt1(x.ep, 3, 9),
        gt1(CubieSpec::mult(x, generator_spec(4)).ep, 4, 6) == gt1(x.ep, 4, 9),
        gt1(CubieSpec::mult(x, generator_spec(4)).ep, 5, 6) == gt1(x.ep, 5, 9),
        gt1(CubieSpec::mult(x, generator_spec(4)).ep, 0, 7) == gt1(x.ep, 0, 7),
        gt1(CubieSpec::mult(x, generator_spec(4)).ep, 1, 7) == gt1(x.ep, 1, 7),
        gt1(CubieSpec::mult(x, generator_spec(4)).ep, 2, 7) == 1 - gt1(x.ep, 7, 10),
        gt1(CubieSpec::mult(x, generator_spec(4)).ep, 3, 7) == gt1(x.ep, 3, 7),
        gt1(CubieSpec::mult(x, generator_spec(4)).ep, 4, 7) == gt1(x.ep, 4, 7),
        gt1(CubieSpec::mult(x, generator_spec(4)).ep, 5, 7) == gt1(x.ep, 5, 7),
        gt1(CubieSpec::mult(x, generator_spec(4)).ep, 6, 7) == 1 - gt1(x.ep, 7, 9),
        gt1(CubieSpec::mult(x, generator_spec(4)).ep, 0, 8) == gt1(x.ep, 0, 8),
        gt1(CubieSpec::mult(x, generator_spec(4)).ep, 1, 8) == gt1(x.ep, 1, 8),
        gt1(CubieSpec::mult(x, generator_spec(4)).ep, 2, 8) == 1 - gt1(x.ep, 8, 10),
        gt1(CubieSpec::mult(x, generator_spec(4)).ep, 3, 8) == gt1(x.ep, 3, 8),
        gt1(CubieSpec::mult(x, generator_spec(4)).ep, 4, 8) == gt1(x.ep, 4, 8),
        gt1(CubieSpec::mult(x, generator_spec(4)).ep, 5, 8) == gt1(x.ep, 5, 8),
        gt1(CubieSpec::mult(x, generator_spec(4)).ep, 6, 8) == 1 - gt1(x.ep, 8, 9),
        gt1(CubieSpec::mult(x, generator_spec(4)).ep, 7, 8) == gt1(x.ep, 7, 8),
        gt1(CubieSpec::mult(x, generator_spec(4)).ep, 0, 9) == gt1(x.ep, 0, 2),
        gt1(CubieSpec::mult(x, generator_spec(4)).ep, 1, 9) == gt1(x.ep, 1, 2),
        gt1(CubieSpec::mult(x, generator_spec(4)).ep, 2, 9) == 1 - gt1(x.ep, 2, 10),
        gt1(CubieSpec::mult(x, generator_spec(4)).ep, 3, 9) == 1 - gt1(x.ep, 2, 3),
        gt1(CubieSpec::mult(x, generator_spec(4)).ep, 4, 9) == 1 - gt1(x.ep, 2, 4),
        gt1(CubieSpec::mult(x, generator_spec(4)).ep, 5, 9) == 1 - gt1(x.ep, 2, 5),
        gt1(CubieSpec::mult(x, generator_spec(4)).ep, 6, 9) == 1 - gt1(x.ep, 2, 9),
        gt1(CubieSpec::mult(x, generator_spec(4)).ep, 7, 9) == 1 - gt1(x.ep, 2, 7),
        gt1(CubieSpec::mult(x, generator_spec(4)).ep, 8, 9) == 1 - gt1(x.ep, 2, 8),
        gt1(CubieSpec::mult(x, generator_spec(4)).ep, 0, 10) == gt1(x.ep, 0, 6),
        gt1(CubieSpec::mult(x, generator_spec(4)).ep, 1, 10) == gt1(x.ep, 1, 6),
        gt1(CubieSpec::mult(x, generator_spec(4)).ep, 2, 10) == 1 - gt1(x.ep, 6, 10),
        gt1(CubieSpec::mult(x, generator_spec(4)).ep, 3, 10) == gt1(x.ep, 3, 6),
        gt1(CubieSpec::mult(x, generator_spec(4)).ep, 4, 10) == gt1(x.ep, 4, 6),
        gt1(CubieSpec::mult(x, generator_spec(4)).ep, 5, 10) == gt1(x.ep, 5, 6),
        gt1(CubieSpec::mult(x, generator_spec(4)).ep, 6, 10) == 1 - gt1(x.ep, 6, 9),
        gt1(CubieSpec::mult(x, generator_spec(4)).ep, 7, 10) == 1 - gt1(x.ep, 6, 7),
        gt1(CubieSpec::mult(x, generator_spec(4)).ep, 8, 10) == 1 - gt1(x.ep, 6, 8),
        gt1(CubieSpec::mult(x, generator_spec(4)).ep, 9, 10) == gt1(x.ep, 2, 6),
        gt1(CubieSpec::mult(x, generator_spec(4)).ep, 0, 11) == gt1(x.ep, 0, 11),
        gt1(CubieSpec::mult(x, generator_spec(4)).ep, 1, 11) == gt1(x.ep, 1, 11),
        gt1(CubieSpec::mult(x, generator_spec(4)).ep, 2, 11) == gt1(x.ep, 10, 11),
        gt1(CubieSpec::mult(x, generator_spec(4)).ep, 3, 11) == gt1(x.ep, 3, 11),
        gt1(CubieSpec::mult(x, generator_spec(4)).ep, 4, 11) == gt1(x.ep, 4, 11),
        gt1(CubieSpec::mult(x, generator_spec(4)).ep, 5, 11) == gt1(x.ep, 5, 11),
        gt1(CubieSpec::mult(x, generator_spec(4)).ep, 6, 11) == gt1(x.ep, 9, 11),
        gt1(CubieSpec::mult(x, generator_spec(4)).ep, 7, 11) == gt1(x.ep, 7, 11),
        gt1(CubieSpec::mult(x, generator_spec(4)).ep, 8, 11) == gt1(x.ep, 8, 11),
        gt1(CubieSpec::mult(x, generator_spec(4)).ep, 9, 11) == gt1(x.ep, 2, 11),
        gt1(CubieSpec::mult(x, generator_spec(4)).ep, 10, 11) == gt1(x.ep, 6, 11),
{
    let y = CubieSpec::mult(x, generator_spec(4));
    assert(y.ep[0] == x.ep[0]);
    assert(y.ep[1] == x.ep[1]);
    assert(y.ep[2] == x.ep[10]);
    assert(y.ep[3] == x.ep[3]);
    assert(y.ep[4] == x.ep[4]);
    assert(y.ep[5] == x.ep[5]);
    assert(y.ep[6] == x.ep[9]);
    assert(y.ep[7] == x.ep[7]);
    assert(y.ep[8] == x.ep[8]);
    assert(y.ep[9] == x.ep[2]);
    assert(y.ep[10] == x.ep[6]);
    assert(y.ep[11] == x.ep[11]);
    assert(gt1(y.ep, 0, 1) == gt1(x.ep, 0, 1));
    assert(gt1(y.ep, 0, 2) == gt1(x.ep, 0, 10));
    assert(gt1(y.ep, 1, 2) == gt1(x.ep, 1, 10));
    assert(gt1(y.ep, 0, 3) == gt1(x.ep, 0, 3));
    assert(gt1(y.ep, 1, 3) == gt1(x.ep, 1, 3));
    assert(gt1(y.ep, 2, 3) == 1 - gt1(x.ep, 3, 10));
    assert(gt1(y.ep, 0, 4) == gt1(x.ep, 0, 4));
    assert(gt1(y.ep, 1, 4) == gt1(x.ep, 1, 4));
    assert(gt1(y.ep, 2, 4) == 1 - gt1(x.ep, 4, 10));
    assert(gt1(y.ep, 3, 4) == gt1(x.ep, 3, 4));
    assert(gt1(y.ep, 0, 5) == gt1(x.ep, 0, 5));
    assert(gt1(y.ep, 1, 5) == gt1(x.ep, 1, 5));
    assert(gt1(y.ep, 2, 5) == 1 - gt1(x.ep, 5, 10));
    assert(gt1(y.ep, 3, 5) == gt1(x.ep, 3, 5));
    assert(gt1(y.ep, 4, 5) == gt1(x.ep, 4, 5));
    assert(gt1(y.ep, 0, 6) == gt1(x.ep, 0, 9));
    assert(gt1(y.ep, 1, 6) == gt1(x.ep, 1, 9));
    assert(gt1(y.ep, 2, 6) == 1 - gt1(x.ep, 9, 10));
    assert(gt1(y.ep, 3, 6) == gt1(x.ep, 3, 9));
    assert(gt1(y.ep, 4, 6) == gt1(x.ep, 4, 9));
    assert(gt1(y.ep, 5, 6) == gt1(x.ep, 5, 9));
    assert(gt1(y.ep, 0, 7) == gt1(x.ep, 0, 7));
    assert(gt1(y.ep, 1, 7) == gt1(x.ep, 1, 7));
    assert(gt1(y.ep, 2, 7) == 1 - gt1(x.ep, 7, 10));
    assert(gt1(y.ep, 3, 7) == gt1(x.ep, 3, 7));
    assert(gt1(y.ep, 4, 7) == gt1(x.ep, 4, 7));
    assert(gt1(y.ep, 5, 7) == gt1(x.ep, 5, 7));
    assert(gt1(y.ep, 6, 7) == 1 - gt1(x.ep, 7, 9));
    assert(gt1(y.ep, 0, 8) == gt1(x.ep, 0, 8));
    assert(gt1(y.ep, 1, 8) == gt1(x.ep, 1, 8));
    assert(gt1(y.ep, 2, 8) == 1 - gt1(x.ep, 8, 10));
    assert(gt1(y.ep, 3, 8) == gt1(x.ep, 3, 8));
    assert(gt1(y.ep, 4, 8) == gt1(x.ep, 4, 8));
    assert(gt1(y.ep, 5, 8) == gt1(x.ep, 5, 8));
    assert(gt1(y.ep, 6, 8) == 1 - gt1(x.ep, 8, 9));
    assert(gt1(y.ep, 7, 8) == gt1(x.ep, 7, 8));
    assert(gt1(y.ep, 0, 9) == gt1(x.ep, 0, 2));
    assert(gt1(y.ep, 1, 9) == gt1(x.ep, 1, 2));
    assert(gt1(y.ep, 2, 9) == 1 - gt1(x.ep, 2, 10));
    assert(gt1(y.ep, 3, 9) == 1 - gt1(x.ep, 2, 3));
    assert(gt1(y.ep, 4, 9) == 1 - gt1(x.ep, 2, 4));
    assert(gt1(y.ep, 5, 9) == 1 - gt1(x.ep, 2, 5));
    assert(gt1(y.ep, 6, 9) == 1 - gt1(x.ep, 2, 9));
    assert(gt1(y.ep, 7, 9) == 1 - gt1(x.ep, 2, 7));
    assert(gt1(y.ep, 8, 9) == 1 - gt1(x.ep, 2, 8));
    assert(gt1(y.ep, 0, 10) == gt1(x.ep, 0, 6));
    assert(gt1(y.ep, 1, 10) == gt1(x.ep, 1, 6));
    assert(gt1(y.ep, 2, 10) == 1 - gt1(x.ep, 6, 10));
    assert(gt1(y.ep, 3, 10) == gt1(x.ep, 3, 6));
    assert(gt1(y.ep, 4, 10) == gt1(x.ep, 4, 6));
    assert(gt1(y.ep, 5, 10) == gt1(x.ep, 5, 6));
    assert(gt1(y.ep, 6, 10) == 1 - gt1(x.ep, 6, 9));
    assert(gt1(y.ep, 7, 10) == 1 - gt1(x.ep, 6, 7));
    assert(gt1(y.ep, 8, 10) == 1 - gt1(x.ep, 6, 8));
    assert(gt1(y.ep, 9, 10) == gt1(x.ep, 2, 6));
    assert(gt1(y.ep, 0, 11) == gt1(x.ep, 0, 11));
    assert(gt1(y.ep, 1, 11) == gt1(x.ep, 1, 11));
    assert(gt1(y.ep, 2, 11) == gt1(x.ep, 10, 11));
    assert(gt1(y.ep, 3, 11) == gt1(x.ep, 3, 11));
    assert(gt1(y.ep, 4, 11) == gt1(x.ep, 4, 11));
    assert(gt1(y.ep, 5, 11) == gt1(x.ep, 5, 11));
    assert(gt1(y.ep, 6, 11) == gt1(x.ep, 9, 11));
    assert(gt1(y.ep, 7, 11) == gt1(x.ep, 7, 11));
    assert(gt1(y.ep, 8, 11) == gt1(x.ep, 8, 11));
    assert(gt1(y.ep, 9, 11) == gt1(x.ep, 2, 11));
    assert(gt1(y.ep, 10, 11) == gt1(x.ep, 6, 11));
}

#[verifier::rlimit(100)]
#[verifier::spinoff_prover]
proof fn lemma_parity_flip_c4(x: CubieSpec)
    requires
        x.wf(),
    ensures
        corner_parity_of(CubieSpec::mult(x, generator_spec(4))) == (corner_parity_of(x) + 1)
            % 2,
{
    let g = generator_spec(4);
    let y = CubieSpec::mult(x, g);
    lemma_pair_map_c4(x);
    lemma_inv8_as_pairs(x.cp);
    lemma_inv8_as_pairs(y.cp);
    let sc = gt1(x.cp, 3, 6) + gt1(x.cp, 4, 6) + gt1(x.cp, 1, 2) + gt1(x.cp, 1, 6) + gt1(x.cp, 1, 3) + gt1(x.cp, 1, 4) + gt1(x.cp, 5, 6);
    assert(pair8(y.cp) == pair8(x.cp) + 7 - 2 * sc);
    vstd::arithmetic::div_mod::lemma_mod_multiples_vanish(3 - sc, pair8(x.cp) + 1, 2);
}

#[verifier::rlimit(100)]
#[verifier::spinoff_prover]
proof fn lemma_parity_flip_e4(x: CubieSpec)
    requires
        x.wf(),
    ensures
        edge_parity_of(CubieSpec::mult(x, generator_spec(4))) == (edge_parity_of(x) + 1) % 2,
{
    let g = generator_spec(4);
    let y = CubieSpec::mult(x, g);
    lemma_pair_map_e4(x);
    lemma_inv12_as_pairs(x.ep);
    lemma_inv12_as_pairs(y.ep);
    let se = gt1(x.ep, 3, 10) + gt1(x.ep, 4, 10) + gt1(x.ep, 5, 10) + gt1(x.ep, 9, 10) + gt1(x.ep, 7, 10) + gt1(x.ep, 7, 9) + gt1(x.ep, 8, 10) + gt1(x.ep, 8, 9) + gt1(x.ep, 2, 10) + gt1(x.ep, 2, 3) + gt1(x.ep, 2, 4) + gt1(x.ep, 2, 5) + gt1(x.ep, 2, 9) + gt1(x.ep, 2, 7) + gt1(x.ep, 2, 8) + gt1(x.ep, 6, 10) + gt1(x.ep, 6, 9) + gt1(x.ep, 6, 7) + gt1(x.ep, 6, 8);
    assert(pair12(y.ep) == pair12(x.ep) + 19 - 2 * se);
    vstd::arithmetic::div_mod::lemma_mod_multiples_vanish(9 - se, pair12(x.ep) + 1, 2);
}


#[verifier::rlimit(100)]
#[verifier::spinoff_prover]
proof fn lemma_pair_map_c5(x: CubieSpec)
    requires
        x.wf(),
    ensures
        gt1(CubieSpec::mult(x, generator_spec(5)).cp, 0, 1) == gt1(x.cp, 0, 1),
        gt1(CubieSpec::mult(x, generator_spec(5)).cp, 0, 2) == gt1(x.cp, 0, 3),
        gt1(CubieSpec::mult(x, generator_spec(5)).cp, 1, 2) == gt1(x.cp, 1, 3),
        gt1(CubieSpec::mult(x, generator_spec(5)).cp, 0, 3) == gt1(x.cp, 0, 7),
        gt1(CubieSpec::mult(x, generator_spec(5)).cp, 1, 3) == gt1(x.cp, 1, 7),
        gt1(CubieSpec::mult(x, generator_spec(5)).cp, 2, 3) == gt1(x.cp, 3, 7),
        gt1(CubieSpec::mult(x, generator_spec(5)).cp, 0, 4) == gt1(x.cp, 0, 4),
        gt1(CubieSpec::mult(x, generator_spec(5)).cp, 1, 4) == gt1(x.cp, 1, 4),
        gt1(CubieSpec::mult(x, generator_spec(5)).cp, 2, 4) == gt1(x.cp, 3, 4),
        gt1(CubieSpec::mult(x, generator_spec(5)).cp, 3, 4) == 1 - gt1(x.cp, 4, 7),
        gt1(CubieSpec::mult(x, generator_spec(5)).cp, 0, 5) == gt1(x.cp, 0, 5),
        gt1(CubieSpec::mult(x, generator_spec(5)).cp, 1, 5) == gt1(x.cp, 1, 5),
        gt1(CubieSpec::mult(x, generator_spec(5)).cp, 2, 5) == gt1(x.cp, 3, 5),
        gt1(CubieSpec::mult(x, generator_spec(5)).cp, 3, 5) == 1 - gt1(x.cp, 5, 7),
        gt1(CubieSpec::mult(x, generator_spec(5)).cp, 4, 5) == gt1(x.cp, 4, 5),
        gt1(CubieSpec::mult(x, generator_spec(5)).cp, 0, 6) == gt1(x.cp, 0, 2),
        gt1(CubieSpec::mult(x, generator_spec(5)).cp, 1, 6) == gt1(x.cp, 1, 2),
        gt1(CubieSpec::mult(x, generator_spec(5)).cp, 2, 6) == 1 - gt1(x.cp, 2, 3),
        gt1(CubieSpec::mult(x, generator_spec(5)).cp, 3, 6) == 1 - gt1(x.cp, 2, 7),
        gt1(CubieSpec::mult(x, generator_spec(5)).cp, 4, 6) == 1 - gt1(x.cp, 2, 4),
        gt1(CubieSpec::mult(x, generator_spec(5)).cp, 5, 6) == 1 - gt1(x.cp, 2, 5),
        gt1(CubieSpec::mult(x, generator_spec(5)).cp, 0, 7) == gt1(x.cp, 0, 6),
        gt1(CubieSpec::mult(x, generator_spec(5)).cp, 1, 7) == gt1(x.cp, 1, 6),
        gt1(CubieSpec::mult(x, generator_spec(5)).cp, 2, 7) == gt1(x.cp, 3, 6),
        gt1(CubieSpec::mult(x, generator_spec(5)).cp, 3, 7) == 1 - gt1(x.cp, 6, 7),
        gt1(CubieSpec::mult(x, generator_spec(5)).cp, 4, 7) == gt1(x.cp, 4, 6),
        gt1(CubieSpec::mult(x, generator_spec(5)).cp, 5, 7) == gt1(x.cp, 5, 6),
        gt1(CubieSpec::mult(x, generator_spec(5)).cp, 6, 7) == gt1(x.cp, 2, 6),
{
    let y = CubieSpec::mult(x, generator_spec(5));
    assert(y.cp[0] == x.cp[0]);
    assert(y.cp[1] == x.cp[1]);
    assert(y.cp[2] == x.cp[3]);
    assert(y.cp[3] == x.cp[7]);
    assert(y.cp[4] == x.cp[4]);
    assert(y.cp[5] == x.cp[5]);
    assert(y.cp[6] == x.cp[2]);
    assert(y.cp[7] == x.cp[6]);
    assert(gt1(y.cp, 0, 1) == gt1(x.cp, 0, 1));
    assert(gt1(y.cp, 0, 2) == gt1(x.cp, 0, 3));
    assert(gt1(y.cp, 1, 2) == gt1(x.cp, 1, 3));
    assert(gt1(y.cp, 0, 3) == gt1(x.cp, 0, 7));
    assert(gt1(y.cp, 1, 3) == gt1(x.cp, 1, 7));
    assert(gt1(y.cp, 2, 3) == gt1(x.cp, 3, 7));
    assert(gt1(y.cp, 0, 4) == gt1(x.cp, 0, 4));
    assert(gt1(y.cp, 1, 4) == gt1(x.cp, 1, 4));
    assert(gt1(y.cp, 2, 4) == gt1(x.cp, 3, 4));
    assert(gt1(y.cp, 3, 4) == 1 - gt1(x.cp, 4, 7));
    assert(gt1(y.cp, 0, 5) == gt1(x.cp, 0, 5));
    assert(gt1(y.cp, 1, 5) == gt1(x.cp, 1, 5));
    assert(gt1(y.cp, 2, 5) == gt1(x.cp, 3, 5));
    assert(gt1(y.cp, 3, 5) == 1 - gt1(x.cp, 5, 7));
    assert(gt1(y.cp, 4, 5) == gt1(x.cp, 4, 5));
    assert(gt1(y.cp, 0, 6) == gt1(x.cp, 0, 2));
    assert(gt1(y.cp, 1, 6) == gt1(x.cp, 1, 2));
    assert(gt1(y.cp, 2, 6) == 1 - gt1(x.cp, 2, 3));
    assert(gt1(y.cp, 3, 6) == 1 - gt1(x.cp, 2, 7));
    assert(gt1(y.cp, 4, 6) == 1 - gt1(x.cp, 2, 4));
    assert(gt1(y.cp, 5, 6) == 1 - gt1(x.cp, 2, 5));
    assert(gt1(y.cp, 0, 7) == gt1(x.cp, 0, 6));
    assert(gt1(y.cp, 1, 7) == gt1(x.cp, 1, 6));
    assert(gt1(y.cp, 2, 7) == gt1(x.cp, 3, 6));
    assert(gt1(y.cp, 3, 7) == 1 - gt1(x.cp, 6, 7));
    assert(gt1(y.cp, 4, 7) == gt1(x.cp, 4, 6));
    assert(gt1(y.cp, 5, 7) == gt1(x.cp, 5, 6));
    assert(gt1(y.cp, 6, 7) == gt1(x.cp, 2, 6));
}

#[verifier::rlimit(100)]
#[verifier::spinoff_prover]
proof fn lemma_pair_map_e5(x: CubieSpec)
    requires
        x.wf(),
    ensures
        gt1(CubieSpec::mult(x, generator_spec(5)).ep, 0, 1) == gt1(x.ep, 0, 1),
        gt1(CubieSpec::mult(x, generator_spec(5)).ep, 0, 2) == gt1(x.ep, 0, 2),
        gt1(CubieSpec::mult(x, generator_spec(5)).ep, 1, 2) == gt1(x.ep, 1, 2),
        gt1(CubieSpec::mult(x, generator_spec(5)).ep, 0, 3) == gt1(x.ep, 0, 11),
        gt1(CubieSpec::mult(x, generator_spec(5)).ep, 1, 3) == gt1(x.ep, 1, 11),
        gt1(CubieSpec::mult(x, generator_spec(5)).ep, 2, 3) == gt1(x.ep, 2, 11),
        gt1(CubieSpec::mult(x, generator_spec(5)).ep, 0, 4) == gt1(x.ep, 0, 4),
        gt1(CubieSpec::mult(x, generator_spec(5)).ep, 1, 4) == gt1(x.ep, 1, 4),
        gt1(CubieSpec::mult(x, generator_spec(5)).ep, 2, 4) == gt1(x.ep, 2, 4),
        gt1(CubieSpec::mult(x, generator_spec(5)).ep, 3, 4) == 1 - gt1(x.ep, 4, 11),
        gt1(CubieSpec::mult(x, generator_spec(5)).ep, 0, 5) == gt1(x.ep, 0, 5),
        gt1(CubieSpec::mult(x, generator_spec(5)).ep, 1, 5) == gt1(x.ep, 1, 5),
        gt1(CubieSpec::mult(x, generator_spec(5)).ep, 2, 5) == gt1(x.ep, 2, 5),
        gt1(CubieSpec::mult(x, generator_spec(5)).ep, 3, 5) == 1 - gt1(x.ep, 5, 11),
        gt1(CubieSpec::mult(x, generator_spec(5)).ep, 4, 5) == gt1(x.ep, 4, 5),
        gt1(CubieSpec::mult(x, generator_spec(5)).ep, 0, 6) == gt1(x.ep, 0, 6),
        gt1(CubieSpec::mult(x, generator_spec(5)).ep, 1, 6) == gt1(x.ep, 1, 6),
        gt1(CubieSpec::mult(x, generator_spec(5)).ep, 2, 6) == gt1(x.ep, 2, 6),
        gt1(CubieSpec::mult(x, generator_spec(5)).ep, 3, 6) == 1 - gt1(x.ep, 6, 11),
        gt1(CubieSpec::mult(x, generator_spec(5)).ep, 4, 6) == gt1(x.ep, 4, 6),
        gt1(CubieSpec::mult(x, generator_spec(5)).ep, 5, 6) == gt1(x.ep, 5, 6),
        gt1(CubieSpec::mult(x, generator_spec(5)).ep, 0, 7) == gt1(x.ep, 0, 10),
        gt1(CubieSpec::mult(x, generator_spec(5)).ep, 1, 7) == gt1(x.ep, 1, 10),
        gt1(CubieSpec::mult(x, generator_spec(5)).ep, 2, 7) == gt1(x.ep, 2, 10),
        gt1(CubieSpec::mult(x, generator_spec(5)).ep, 3, 7) == 1 - gt1(x.ep, 10, 11),
        gt1(CubieSpec::mult(x, generator_spec(5)).ep, 4, 7) == gt1(x.ep, 4, 10),
        gt1(CubieSpec::mult(x, generator_spec(5)).ep, 5, 7) == gt1(x.ep, 5, 10),
        gt1(CubieSpec::mult(x, generator_spec(5)).ep, 6, 7) == gt1(x.ep, 6, 10),
        gt1(CubieSpec::mult(x, generator_spec(5)).ep, 0, 8) == gt1(x.ep, 0, 8),
        gt1(CubieSpec::mult(x, generator_spec(5)).ep, 1, 8) == gt1(x.ep, 1, 8),
        gt1(CubieSpec::mult(x, generator_spec(5)).ep, 2, 8) == gt1(x.ep, 2, 8),
        gt1(CubieSpec::mult(x, generator_spec(5)).ep, 3, 8) == 1 - gt1(x.ep, 8, 11),
        gt1(CubieSpec::mult(x, generator_spec(5)).ep, 4, 8) == gt1(x.ep, 4, 8),
        gt1(CubieSpec::mult(x, generator_spec(5)).ep, 5, 8) == gt1(x.ep, 5, 8),
        gt1(CubieSpec::mult(x, generator_spec(5)).ep, 6, 8) == gt1(x.ep, 6, 8),
        gt1(CubieSpec::mult(x, generator_spec(5)).ep, 7, 8) == 1 - gt1(x.ep, 8, 10),
        gt1(CubieSpec::mult(x, generator_spec(5)).ep, 0, 9) == gt1(x.ep, 0, 9),
        gt1(CubieSpec::mult(x, generator_spec(5)).ep, 1, 9) == gt1(x.ep, 1, 9),
        gt1(CubieSpec::mult(x, generator_spec(5)).ep, 2, 9) == gt1(x.ep, 2, 9),
        gt1(CubieSpec::mult(x, generator_spec(5)).ep, 3, 9) == 1 - gt1(x.ep, 9, 11),
        gt1(CubieSpec::mult(x, generator_spec(5)).ep, 4, 9) == gt1(x.ep, 4, 9),
        gt1(CubieSpec::mult(x, generator_spec(5)).ep, 5, 9) == gt1(x.ep, 5, 9),
        gt1(CubieSpec::mult(x, generator_spec(5)).ep, 6, 9) == gt1(x.ep, 6, 9),
        gt1(CubieSpec::mult(x, generator_spec(5)).ep, 7, 9) == 1 - gt1(x.ep, 9, 10),
        gt1(CubieSpec::mult(x, generator_spec(5)).ep, 8, 9) == gt1(x.ep, 8, 9),
        gt1(CubieSpec::mult(x, generator_spec(5)).ep, 0, 10) == gt1(x.ep, 0, 3),
        gt1(CubieSpec::mult(x, generator_spec(5)).ep, 1, 10) == gt1(x.ep, 1, 3),
        gt1(CubieSpec::mult(x, generator_spec(5)).ep, 2, 10) == gt1(x.ep, 2, 3),
        gt1(CubieSpec::mult(x, generator_spec(5)).ep, 3, 10) == 1 - gt1(x.ep, 3, 11),
        gt1(CubieSpec::mult(x, generator_spec(5)).ep, 4, 10) == 1 - gt1(x.ep, 3, 4),
        gt1(CubieSpec::mult(x, generator_spec(5)).ep, 5, 10) == 1 - gt1(x.ep, 3, 5),
        gt1(CubieSpec::mult(x, generator_spec(5)).ep, 6, 10) == 1 - gt1(x.ep, 3, 6),
        gt1(CubieSpec::mult(x, generator_spec(5)).ep, 7, 10) == 1 - gt1(x.ep, 3, 10),
        gt1(CubieSpec::mult(x, generator_spec(5)).ep, 8, 10) == 1 - gt1(x.ep, 3, 8),
        gt1(CubieSpec::mult(x, generator_spec(5)).ep, 9, 10) == 1 - gt1(x.ep, 3, 9),
        gt1(CubieSpec::mult(x, generator_spec(5)).ep, 0, 11) == gt1(x.ep, 0, 7),
        gt1(CubieSpec::mult(x, generator_spec(5)).ep, 1, 11) == gt1(x.ep, 1, 7),
        gt1(CubieSpec::mult(x, generator_spec(5)).ep, 2, 11) == gt1(x.ep, 2, 7),
        gt1(CubieSpec::mult(x, generator_spec(5)).ep, 3, 11) == 1 - gt1(x.ep, 7, 11),
        gt1(CubieSpec::mult(x, generator_spec(5)).ep, 4, 11) == gt1(x.ep, 4, 7),
        gt1(CubieSpec::mult(x, generator_spec(5)).ep, 5, 11) == gt1(x.ep, 5, 7),
        gt1(CubieSpec::mult(x, generator_spec(5)).ep, 6, 11) == gt1(x.ep, 6, 7),
        gt1(CubieSpec::mult(x, generator_spec(5)).ep, 7, 11) == 1 - gt1(x.ep, 7, 10),
        gt1(CubieSpec::mult(x, generator_spec(5)).ep, 8, 11) == 1 - gt1(x.ep, 7, 8),
        gt1(CubieSpec::mult(x, generator_spec(5)).ep, 9, 11) == 1 - gt1(x.ep, 7, 9),
        gt1(CubieSpec::mult(x, generator_spec(5)).ep, 10, 11) == gt1(x.ep, 3, 7),
{
    let y = CubieSpec::mult(x, generator_spec(5));
    assert(y.ep[0] == x.ep[0]);
    assert(y.ep[1] == x.ep[1]);
    assert(y.ep[2] == x.ep[2]);
    assert(y.ep[3] == x.ep[11]);
    assert(y.ep[4] == x.ep[4]);
    assert(y.ep[5] == x.ep[5]);
    assert(y.ep[6] == x.ep[6]);
    assert(y.ep[7] == x.ep[10]);
    assert(y.ep[8] == x.ep[8]);
    assert(y.ep[9] == x.ep[9]);
    assert(y.ep[10] == x.ep[3]);
    assert(y.ep[11] == x.ep[7]);
    assert(gt1(y.ep, 0, 1) == gt1(x.ep, 0, 1));
    assert(gt1(y.ep, 0, 2) == gt1(x.ep, 0, 2));
    assert(gt1(y.ep, 1, 2) == gt1(x.ep, 1, 2));
    assert(gt1(y.ep, 0, 3) == gt1(x.ep, 0, 11));
    assert(gt1(y.ep, 1, 3) == gt1(x.ep, 1, 11));
    assert(gt1(y.ep, 2, 3) == gt1(x.ep, 2, 11));
    assert(gt1(y.ep, 0, 4) == gt1(x.ep, 0, 4));
    assert(gt1(y.ep, 1, 4) == gt1(x.ep, 1, 4));
    assert(gt1(y.ep, 2, 4) == gt1(x.ep, 2, 4));
    assert(gt1(y.ep, 3, 4) == 1 - gt1(x.ep, 4, 11));
    assert(gt1(y.ep, 0, 5) == gt1(x.ep, 0, 5));
    assert(gt1(y.ep, 1, 5) == gt1(x.ep, 1, 5));
    assert(gt1(y.ep, 2, 5) == gt1(x.ep, 2, 5));
    assert(gt1(y.ep, 3, 5) == 1 - gt1(x.ep, 5, 11));
    assert(gt1(y.ep, 4, 5) == gt1(x.ep, 4, 5));
    assert(gt1(y.ep, 0, 6) == gt1(x.ep, 0, 6));
    assert(gt1(y.ep, 1, 6) == gt1(x.ep, 1, 6));
    assert(gt1(y.ep, 2, 6) == gt1(x.ep, 2, 6));
    assert(gt1(y.ep, 3, 6) == 1 - gt1(x.ep, 6, 11));
    assert(gt1(y.ep, 4, 6) == gt1(x.ep, 4, 6));
    assert(gt1(y.ep, 5, 6) == gt1(x.ep, 5, 6));
    assert(gt1(y.ep, 0, 7) == gt1(x.ep, 0, 10));
    assert(gt1(y.ep, 1, 7) == gt1(x.ep, 1, 10));
    assert(gt1(y.ep, 2, 7) == gt1(x.ep, 2, 10));
    assert(gt1(y.ep, 3, 7) == 1 - gt1(x.ep, 10, 11));
    assert(gt1(y.ep, 4, 7) == gt1(x.ep, 4, 10));
    assert(gt1(y.ep, 5, 7) == gt1(x.ep, 5, 10));
    assert(gt1(y.ep, 6, 7) == gt1(x.ep, 6, 10));
    assert(gt1(y.ep, 0, 8) == gt1(x.ep, 0, 8));
    assert(gt1(y.ep, 1, 8) == gt1(x.ep, 1, 8));
    assert(gt1(y.ep, 2, 8) == gt1(x.ep, 2, 8));
    assert(gt1(y.ep, 3, 8) == 1 - gt1(x.ep, 8, 11));
    assert(gt1(y.ep, 4, 8) == gt1(x.ep, 4, 8));
    assert(gt1(y.ep, 5, 8) == gt1(x.ep, 5, 8));
    assert(gt1(y.ep, 6, 8) == gt1(x.ep, 6, 8));
    assert(gt1(y.ep, 7, 8) == 1 - gt1(x.ep, 8, 10));
    assert(gt1(y.ep, 0, 9) == gt1(x.ep, 0, 9));
    assert(gt1(y.ep, 1, 9) == gt1(x.ep, 1, 9));
    assert(gt1(y.ep, 2, 9) == gt1(x.ep, 2, 9));
    assert(gt1(y.ep, 3, 9) == 1 - gt1(x.ep, 9, 11));
    assert(gt1(y.ep, 4, 9) == gt1(x.ep, 4, 9));
    assert(gt1(y.ep, 5, 9) == gt1(x.ep, 5, 9));
    assert(gt1(y.ep, 6, 9) == gt1(x.ep, 6, 9));
    assert(gt1(y.ep, 7, 9) == 1 - gt1(x.ep, 9, 10));
    assert(gt1(y.ep, 8, 9) == gt1(x.ep, 8, 9));
    assert(gt1(y.ep, 0, 10) == gt1(x.ep, 0, 3));
    assert(gt1(y.ep, 1, 10) == gt1(x.ep, 1, 3));
    assert(gt1(y.ep, 2, 10) == gt1(x.ep, 2, 3));
    assert(gt1(y.ep, 3, 10) == 1 - gt1(x.ep, 3, 11));
    assert(gt1(y.ep, 4, 10) == 1 - gt1(x.ep, 3, 4));
    assert(gt1(y.ep, 5, 10) == 1 - gt1(x.ep, 3, 5));
    assert(gt1(y.ep, 6, 10) == 1 - gt1(x.ep, 3, 6));
    assert(gt1(y.ep, 7, 10) == 1 - gt1(x.ep, 3, 10));
    assert(gt1(y.ep, 8, 10) == 1 - gt1(x.ep, 3, 8));
    assert(gt1(y.ep, 9, 10) == 1 - gt1(x.ep, 3, 9));
    assert(gt1(y.ep, 0, 11) == gt1(x.ep, 0, 7));
    assert(gt1(y.ep, 1, 11) == gt1(x.ep, 1, 7));
    assert(gt1(y.ep, 2, 11) == gt1(x.ep, 2, 7));
    assert(gt1(y.ep, 3, 11) == 1 - gt1(x.ep, 7, 11));
    assert(gt1(y.ep, 4, 11) == gt1(x.ep, 4, 7));
    assert(gt1(y.ep, 5, 11) == gt1(x.ep, 5, 7));
    assert(gt1(y.ep, 6, 11) == gt1(x.ep, 6, 7));
    assert(gt1(y.ep, 7, 11) == 1 - gt1(x.ep, 7, 10));
    assert(gt1(y.ep, 8, 11) == 1 - gt1(x.ep, 7, 8));
    assert(gt1(y.ep, 9, 11) == 1 - gt1(x.ep, 7, 9));
    assert(gt1(y.ep, 10, 11) == gt1(x.ep, 3, 7));
}

#[verifier::rlimit(100)]
#[verifier::spinoff_prover]
proof fn lemma_parity_flip_c5(x: CubieSpec)
    requires
        x.wf(),
    ensures
        corner_parity_of(CubieSpec::mult(x, generator_spec(5))) == (corner_parity_of(x) + 1)
            % 2,
{
    let g = generator_spec(5);
    let y = CubieSpec::mult(x, g);
    lemma_pair_map_c5(x);
    lemma_inv8_as_pairs(x.cp);
    lemma_inv8_as_pairs(y.cp);
    let sc = gt1(x.cp, 4, 7) + gt1(x.cp, 5, 7) + gt1(x.cp, 2, 3) + gt1(x.cp, 2, 7) + gt1(x.cp, 2, 4) + gt1(x.cp, 2, 5) + gt1(x.cp, 6, 7);
    assert(pair8(y.cp) == pair8(x.cp) + 7 - 2 * sc);
    vstd::arithmetic::div_mod::lemma_mod_multiples_vanish(3 - sc, pair8(x.cp) + 1, 2);
}

#[verifier::rlimit(100)]
#[verifier::spinoff_prover]
proof fn lemma_parity_flip_e5(x: CubieSpec)
    requires
        x.wf(),
    ensures
        edge_parity_of(CubieSpec::mult(x, generator_spec(5))) == (edge_parity_of(x) + 1) % 2,
{
    let g = generator_spec(5);
    let y = CubieSpec::mult(x, g);
    lemma_pair_map_e5(x);
    lemma_inv12_as_pairs(x.ep);
    lemma_inv12_as_pairs(y.ep);
    let se = gt1(x.ep, 4, 11) + gt1(x.ep, 5, 11) + gt1(x.ep, 6, 11) + gt1(x.ep, 10, 11) + gt1(x.ep, 8, 11) + gt1(x.ep, 8, 10) + gt1(x.ep, 9, 11) + gt1(x.ep, 9, 10) + gt1(x.ep, 3, 11) + gt1(x.ep, 3, 4) + gt1(x.ep, 3, 5) + gt1(x.ep, 3, 6) + gt1(x.ep, 3, 10) + gt1(x.ep, 3, 8) + gt1(x.ep, 3, 9) + gt1(x.ep, 7, 11) + gt1(x.ep, 7, 10) + gt1(x.ep, 7, 8) + gt1(x.ep, 7, 9);
    assert(pair12(y.ep) == pair12(x.ep) + 19 - 2 * se);
    vstd::arithmetic::div_mod::lemma_mod_multiples_vanish(9 - se, pair12(x.ep) + 1, 2);
}


/// Applying any of the eighteen moves preserves the physical invariant.
pub proof fn lemma_move_preserves_invariant(x: CubieSpec, m: int)
    requires
        physical_invariant(x),
        0 <= m < 18,
    ensures
        physical_invariant(apply_move(x, m)),
{
    let axis = move_axis(m);
    let power = move_power(m);
    lemma_axis_preserves_invariant(x, axis, power as nat);
}

proof fn lemma_axis_preserves_invariant(x: CubieSpec, axis: int, times: nat)
    requires
        physical_invariant(x),
        0 <= axis < 6,
    ensures
        physical_invariant(apply_axis(x, axis, times)),
    decreases times,
{
    if times > 0 {
        lemma_axis_preserves_invariant(x, axis, (times - 1) as nat);
        lemma_generator_preserves_invariant(apply_axis(x, axis, (times - 1) as nat), axis);
    }
}

/// Every cubie state reachable from solved by any move sequence keeps
/// the corner-twist sum divisible by three, the edge-flip sum even, and
/// corner parity equal to edge parity.
pub proof fn lemma_reachable_invariant(ms: Seq<int>)
    requires
        forall|i: int| 0 <= i < ms.len() ==> 0 <= #[trigger] ms[i] < 18,
    ensures
        physical_invariant(apply_moves(CubieSpec::solved(), ms)),
{
    lemma_solved_invariant();
    lemma_moves_preserve_invariant(CubieSpec::solved(), ms);
}

proof fn lemma_moves_preserve_invariant(x: CubieSpec, ms: Seq<int>)
    requires
        physical_invariant(x),
        forall|i: int| 0 <= i < ms.len() ==> 0 <= #[trigger] ms[i] < 18,
    ensures
        physical_invariant(apply_moves(x, ms)),
    decreases ms.len(),
{
    if ms.len() > 0 {
        lemma_move_preserves_invariant(x, ms[0]);
        assert forall|i: int| 0 <= i < ms.drop_first().len() implies 0 <= #[trigger] ms.drop_first()[i]
            < 18 by {
            assert(ms.drop_first()[i] == ms[i + 1]);
        }
        lemma_moves_preserve_invariant(apply_move(x, ms[0]), ms.drop_first());
    }
}


/// Turning one face four quarter turns returns every state exactly.
pub proof fn lemma_axis_four_times(x: CubieSpec, axis: int)
    requires
        x.ranges_ok(),
        0 <= axis < 6,
    ensures
        apply_axis(x, axis, 4) == x,
{
    let g = generator_spec(axis);
    let x1 = CubieSpec::mult(x, g);
    let x2 = CubieSpec::mult(x1, g);
    let x3 = CubieSpec::mult(x2, g);
    let x4 = CubieSpec::mult(x3, g);
    assert(apply_axis(x, axis, 4) == x4) by {
        assert(apply_axis(x, axis, 0) == x);
        assert(apply_axis(x, axis, 1) == x1);
        assert(apply_axis(x, axis, 2) == x2);
        assert(apply_axis(x, axis, 3) == x3);
    }
    if axis == 0 {
        lemma_four_times_axis0(x);
    } else if axis == 1 {
        lemma_four_times_axis1(x);
    } else if axis == 2 {
        lemma_four_times_axis2(x);
    } else if axis == 3 {
        lemma_four_times_axis3(x);
    } else if axis == 4 {
        lemma_four_times_axis4(x);
    } else {
        lemma_four_times_axis5(x);
    }
}

#[verifier::rlimit(100)]
#[verifier::spinoff_prover]
proof fn lemma_four_times_axis0(x: CubieSpec)
    requires
        x.ranges_ok(),
    ensures
        CubieSpec::mult(
            CubieSpec::mult(
                CubieSpec::mult(CubieSpec::mult(x, generator_spec(0)), generator_spec(0)),
                generator_spec(0),
            ),
            generator_spec(0),
        ) == x,
{
    let g = generator_spec(0);
    let x1 = CubieSpec::mult(x, g);
    let x2 = CubieSpec::mult(x1, g);
    let x3 = CubieSpec::mult(x2, g);
    let x4 = CubieSpec::mult(x3, g);
    assert(x1.co[1] == (x.co[0] + 0) % 3);
    assert(x2.co[2] == (x1.co[1] + 0) % 3);
    assert(x3.co[3] == (x2.co[2] + 0) % 3);
    assert(x4.co[0] == (x3.co[3] + 0) % 3);
    assert(x4.cp[0] == x.cp[0]);
    assert(x4.co[0] == x.co[0]);
    assert(x1.co[2] == (x.co[1] + 0) % 3);
    assert(x2.co[3] == (x1.co[2] + 0) % 3);
    assert(x3.co[0] == (x2.co[3] + 0) % 3);
    assert(x4.co[1] == (x3.co[0] + 0) % 3);
    assert(x4.cp[1] == x.cp[1]);
    assert(x4.co[1] == x.co[1]);
    assert(x1.co[3] == (x.co[2] + 0) % 3);
    assert(x2.co[0] == (x1.co[3] + 0) % 3);
    assert(x3.co[1] == (x2.co[0] + 0) % 3);
    assert(x4.co[2] == (x3.co[1] + 0) % 3);
    assert(x4.cp[2] == x.cp[2]);
    assert(x4.co[2] == x.co[2]);
    assert(x1.co[0] == (x.co[3] + 0) % 3);
    assert(x2.co[1] == (x1.co[0] + 0) % 3);
    assert(x3.co[2] == (x2.co[1] + 0) % 3);
    assert(x4.co[3] == (x3.co[2] + 0) % 3);
    assert(x4.cp[3] == x.cp[3]);
    assert(x4.co[3] == x.co[3]);
    assert(x1.co[4] == (x.co[4] + 0) % 3);
    assert(x2.co[4] == (x1.co[4] + 0) % 3);
    assert(x3.co[4] == (x2.co[4] + 0) % 3);
    assert(x4.co[4] == (x3.co[4] + 0) % 3);
    assert(x4.cp[4] == x.cp[4]);
    assert(x4.co[4] == x.co[4]);
    assert(x1.co[5] == (x.co[5] + 0) % 3);
    assert(x2.co[5] == (x1.co[5] + 0) % 3);
    assert(x3.co[5] == (x2.co[5] + 0) % 3);
    assert(x4.co[5] == (x3.co[5] + 0) % 3);
    assert(x4.cp[5] == x.cp[5]);
    assert(x4.co[5] == x.co[5]);
    assert(x1.co[6] == (x.co[6] + 0) % 3);
    assert(x2.co[6] == (x1.co[6] + 0) % 3);
    assert(x3.co[6] == (x2.co[6] + 0) % 3);
    assert(x4.co[6] == (x3.co[6] + 0) % 3);
    assert(x4.cp[6] == x.cp[6]);
    assert(x4.co[6] == x.co[6]);
    assert(x1.co[7] == (x.co[7] + 0) % 3);
    assert(x2.co[7] == (x1.co[7] + 0) % 3);
    assert(x3.co[7] == (x2.co[7] + 0) % 3);
    assert(x4.co[7] == (x3.co[7] + 0) % 3);
    assert(x4.cp[7] == x.cp[7]);
    assert(x4.co[7] == x.co[7]);
    assert(x1.eo[1] == (x.eo[0] + 0) % 2);
    assert(x2.eo[2] == (x1.eo[1] + 0) % 2);
    assert(x3.eo[3] == (x2.eo[2] + 0) % 2);
    assert(x4.eo[0] == (x3.eo[3] + 0) % 2);
    assert(x4.ep[0] == x.ep[0]);
    assert(x4.eo[0] == x.eo[0]);
    assert(x1.eo[2] == (x.eo[1] + 0) % 2);
    assert(x2.eo[3] == (x1.eo[2] + 0) % 2);
    assert(x3.eo[0] == (x2.eo[3] + 0) % 2);
    assert(x4.eo[1] == (x3.eo[0] + 0) % 2);
    assert(x4.ep[1] == x.ep[1]);
    assert(x4.eo[1] == x.eo[1]);
    assert(x1.eo[3] == (x.eo[2] + 0) % 2);
    assert(x2.eo[0] == (x1.eo[3] + 0) % 2);
    assert(x3.eo[1] == (x2.eo[0] + 0) % 2);
    assert(x4.eo[2] == (x3.eo[1] + 0) % 2);
    assert(x4.ep[2] == x.ep[2]);
    assert(x4.eo[2] == x.eo[2]);
    assert(x1.eo[0] == (x.eo[3] + 0) % 2);
    assert(x2.eo[1] == (x1.eo[0] + 0) % 2);
    assert(x3.eo[2] == (x2.eo[1] + 0) % 2);
    assert(x4.eo[3] == (x3.eo[2] + 0) % 2);
    assert(x4.ep[3] == x.ep[3]);
    assert(x4.eo[3] == x.eo[3]);
    assert(x1.eo[4] == (x.eo[4] + 0) % 2);
    assert(x2.eo[4] == (x1.eo[4] + 0) % 2);
    assert(x3.eo[4] == (x2.eo[4] + 0) % 2);
    assert(x4.eo[4] == (x3.eo[4] + 0) % 2);
    assert(x4.ep[4] == x.ep[4]);
    assert(x4.eo[4] == x.eo[4]);
    assert(x1.eo[5] == (x.eo[5] + 0) % 2);
    assert(x2.eo[5] == (x1.eo[5] + 0) % 2);
    assert(x3.eo[5] == (x2.eo[5] + 0) % 2);
    assert(x4.eo[5] == (x3.eo[5] + 0) % 2);
    assert(x4.ep[5] == x.ep[5]);
    assert(x4.eo[5] == x.eo[5]);
    assert(x1.eo[6] == (x.eo[6] + 0) % 2);
    assert(x2.eo[6] == (x1.eo[6] + 0) % 2);
    assert(x3.eo[6] == (x2.eo[6] + 0) % 2);
    assert(x4.eo[6] == (x3.eo[6] + 0) % 2);
    assert(x4.ep[6] == x.ep[6]);
    assert(x4.eo[6] == x.eo[6]);
    assert(x1.eo[7] == (x.eo[7] + 0) % 2);
    assert(x2.eo[7] == (x1.eo[7] + 0) % 2);
    assert(x3.eo[7] == (x2.eo[7] + 0) % 2);
    assert(x4.eo[7] == (x3.eo[7] + 0) % 2);
    assert(x4.ep[7] == x.ep[7]);
    assert(x4.eo[7] == x.eo[7]);
    assert(x1.eo[8] == (x.eo[8] + 0) % 2);
    assert(x2.eo[8] == (x1.eo[8] + 0) % 2);
    assert(x3.eo[8] == (x2.eo[8] + 0) % 2);
    assert(x4.eo[8] == (x3.eo[8] + 0) % 2);
    assert(x4.ep[8] == x.ep[8]);
    assert(x4.eo[8] == x.eo[8]);
    assert(x1.eo[9] == (x.eo[9] + 0) % 2);
    assert(x2.eo[9] == (x1.eo[9] + 0) % 2);
    assert(x3.eo[9] == (x2.eo[9] + 0) % 2);
    assert(x4.eo[9] == (x3.eo[9] + 0) % 2);
    assert(x4.ep[9] == x.ep[9]);
    assert(x4.eo[9] == x.eo[9]);
    assert(x1.eo[10] == (x.eo[10] + 0) % 2);
    assert(x2.eo[10] == (x1.eo[10] + 0) % 2);
    assert(x3.eo[10] == (x2.eo[10] + 0) % 2);
    assert(x4.eo[10] == (x3.eo[10] + 0) % 2);
    assert(x4.ep[10] == x.ep[10]);
    assert(x4.eo[10] == x.eo[10]);
    assert(x1.eo[11] == (x.eo[11] + 0) % 2);
    assert(x2.eo[11] == (x1.eo[11] + 0) % 2);
    assert(x3.eo[11] == (x2.eo[11] + 0) % 2);
    assert(x4.eo[11] == (x3.eo[11] + 0) % 2);
    assert(x4.ep[11] == x.ep[11]);
    assert(x4.eo[11] == x.eo[11]);
    assert(x4.cp =~= x.cp);
    assert(x4.co =~= x.co);
    assert(x4.ep =~= x.ep);
    assert(x4.eo =~= x.eo);
    assert(x4 =~= x);
}


#[verifier::rlimit(100)]
#[verifier::spinoff_prover]
proof fn lemma_four_times_axis1(x: CubieSpec)
    requires
        x.ranges_ok(),
    ensures
        CubieSpec::mult(
            CubieSpec::mult(
                CubieSpec::mult(CubieSpec::mult(x, generator_spec(1)), generator_spec(1)),
                generator_spec(1),
            ),
            generator_spec(1),
        ) == x,
{
    let g = generator_spec(1);
    let x1 = CubieSpec::mult(x, g);
    let x2 = CubieSpec::mult(x1, g);
    let x3 = CubieSpec::mult(x2, g);
    let x4 = CubieSpec::mult(x3, g);
    assert(x1.co[3] == (x.co[0] + 1) % 3);
    assert(x2.co[7] == (x1.co[3] + 2) % 3);
    assert(x3.co[4] == (x2.co[7] + 1) % 3);
    assert(x4.co[0] == (x3.co[4] + 2) % 3);
    assert(x4.cp[0] == x.cp[0]);
    assert(x4.co[0] == x.co[0]);
    assert(x1.co[1] == (x.co[1] + 0) % 3);
    assert(x2.co[1] == (x1.co[1] + 0) % 3);
    assert(x3.co[1] == (x2.co[1] + 0) % 3);
    assert(x4.co[1] == (x3.co[1] + 0) % 3);
    assert(x4.cp[1] == x.cp[1]);
    assert(x4.co[1] == x.co[1]);
    assert(x1.co[2] == (x.co[2] + 0) % 3);
    assert(x2.co[2] == (x1.co[2] + 0) % 3);
    assert(x3.co[2] == (x2.co[2] + 0) % 3);
    assert(x4.co[2] == (x3.co[2] + 0) % 3);
    assert(x4.cp[2] == x.cp[2]);
    assert(x4.co[2] == x.co[2]);
    assert(x1.co[7] == (x.co[3] + 2) % 3);
    assert(x2.co[4] == (x1.co[7] + 1) % 3);
    assert(x3.co[0] == (x2.co[4] + 2) % 3);
    assert(x4.co[3] == (x3.co[0] + 1) % 3);
    assert(x4.cp[3] == x.cp[3]);
    assert(x4.co[3] == x.co[3]);
    assert(x1.co[0] == (x.co[4] + 2) % 3);
    assert(x2.co[3] == (x1.co[0] + 1) % 3);
    assert(x3.co[7] == (x2.co[3] + 2) % 3);
    assert(x4.co[4] == (x3.co[7] + 1) % 3);
    assert(x4.cp[4] == x.cp[4]);
    assert(x4.co[4] == x.co[4]);
    assert(x1.co[5] == (x.co[5] + 0) % 3);
    assert(x2.co[5] == (x1.co[5] + 0) % 3);
    assert(x3.co[5] == (x2.co[5] + 0) % 3);
    assert(x4.co[5] == (x3.co[5] + 0) % 3);
    assert(x4.cp[5] == x.cp[5]);
    assert(x4.co[5] == x.co[5]);
    assert(x1.co[6] == (x.co[6] + 0) % 3);
    assert(x2.co[6] == (x1.co[6] + 0) % 3);
    assert(x3.co[6] == (x2.co[6] + 0) % 3);
    assert(x4.co[6] == (x3.co[6] + 0) % 3);
    assert(x4.cp[6] == x.cp[6]);
    assert(x4.co[6] == x.co[6]);
    assert(x1.co[4] == (x.co[7] + 1) % 3);
    assert(x2.co[0] == (x1.co[4] + 2) % 3);
    assert(x3.co[3] == (x2.co[0] + 1) % 3);
    assert(x4.co[7] == (x3.co[3] + 2) % 3);
    assert(x4.cp[7] == x.cp[7]);
    assert(x4.co[7] == x.co[7]);
    assert(x1.eo[11] == (x.eo[0] + 0) % 2);
    assert(x2.eo[4] == (x1.eo[11] + 0) % 2);
    assert(x3.eo[8] == (x2.eo[4] + 0) % 2);
    assert(x4.eo[0] == (x3.eo[8] + 0) % 2);
    assert(x4.ep[0] == x.ep[0]);
    assert(x4.eo[0] == x.eo[0]);
    assert(x1.eo[1] == (x.eo[1] + 0) % 2);
    assert(x2.eo[1] == (x1.eo[1] + 0) % 2);
    assert(x3.eo[1] == (x2.eo[1] + 0) % 2);
    assert(x4.eo[1] == (x3.eo[1] + 0) % 2);
    assert(x4.ep[1] == x.ep[1]);
    assert(x4.eo[1] == x.eo[1]);
    assert(x1.eo[2] == (x.eo[2] + 0) % 2);
    assert(x2.eo[2] == (x1.eo[2] + 0) % 2);
    assert(x3.eo[2] == (x2.eo[2] + 0) % 2);
    assert(x4.eo[2] == (x3.eo[2] + 0) % 2);
    assert(x4.ep[2] == x.ep[2]);
    assert(x4.eo[2] == x.eo[2]);
    assert(x1.eo[3] == (x.eo[3] + 0) % 2);
    assert(x2.eo[3] == (x1.eo[3] + 0) % 2);
    assert(x3.eo[3] == (x2.eo[3] + 0) % 2);
    assert(x4.eo[3] == (x3.eo[3] + 0) % 2);
    assert(x4.ep[3] == x.ep[3]);
    assert(x4.eo[3] == x.eo[3]);
    assert(x1.eo[8] == (x.eo[4] + 0) % 2);
    assert(x2.eo[0] == (x1.eo[8] + 0) % 2);
    assert(x3.eo[11] == (x2.eo[0] + 0) % 2);
    assert(x4.eo[4] == (x3.eo[11] + 0) % 2);
    assert(x4.ep[4] == x.ep[4]);
    assert(x4.eo[4] == x.eo[4]);
    assert(x1.eo[5] == (x.eo[5] + 0) % 2);
    assert(x2.eo[5] == (x1.eo[5] + 0) % 2);
    assert(x3.eo[5] == (x2.eo[5] + 0) % 2);
    assert(x4.eo[5] == (x3.eo[5] + 0) % 2);
    assert(x4.ep[5] == x.ep[5]);
    assert(x4.eo[5] == x.eo[5]);
    assert(x1.eo[6] == (x.eo[6] + 0) % 2);
    assert(x2.eo[6] == (x1.eo[6] + 0) % 2);
    assert(x3.eo[6] == (x2.eo[6] + 0) % 2);
    assert(x4.eo[6] == (x3.eo[6] + 0) % 2);
    assert(x4.ep[6] == x.ep[6]);
    assert(x4.eo[6] == x.eo[6]);
    assert(x1.eo[7] == (x.eo[7] + 0) % 2);
    assert(x2.eo[7] == (x1.eo[7] + 0) % 2);
    assert(x3.eo[7] == (x2.eo[7] + 0) % 2);
    assert(x4.eo[7] == (x3.eo[7] + 0) % 2);
    assert(x4.ep[7] == x.ep[7]);
    assert(x4.eo[7] == x.eo[7]);
    assert(x1.eo[0] == (x.eo[8] + 0) % 2);
    assert(x2.eo[11] == (x1.eo[0] + 0) % 2);
    assert(x3.eo[4] == (x2.eo[11] + 0) % 2);
    assert(x4.eo[8] == (x3.eo[4] + 0) % 2);
    assert(x4.ep[8] == x.ep[8]);
    assert(x4.eo[8] == x.eo[8]);
    assert(x1.eo[9] == (x.eo[9] + 0) % 2);
    assert(x2.eo[9] == (x1.eo[9] + 0) % 2);
    assert(x3.eo[9] == (x2.eo[9] + 0) % 2);
    assert(x4.eo[9] == (x3.eo[9] + 0) % 2);
    assert(x4.ep[9] == x.ep[9]);
    assert(x4.eo[9] == x.eo[9]);
    assert(x1.eo[10] == (x.eo[10] + 0) % 2);
    assert(x2.eo[10] == (x1.eo[10] + 0) % 2);
    assert(x3.eo[10] == (x2.eo[10] + 0) % 2);
    assert(x4.eo[10] == (x3.eo[10] + 0) % 2);
    assert(x4.ep[10] == x.ep[10]);
    assert(x4.eo[10] == x.eo[10]);
    assert(x1.eo[4] == (x.eo[11] + 0) % 2);
    assert(x2.eo[8] == (x1.eo[4] + 0) % 2);
    assert(x3.eo[0] == (x2.eo[8] + 0) % 2);
    assert(x4.eo[11] == (x3.eo[0] + 0) % 2);
    assert(x4.ep[11] == x.ep[11]);
    assert(x4.eo[11] == x.eo[11]);
    assert(x4.cp =~= x.cp);
    assert(x4.co =~= x.co);
    assert(x4.ep =~= x.ep);
    assert(x4.eo =~= x.eo);
    assert(x4 =~= x);
}


#[verifier::rlimit(100)]
#[verifier::spinoff_prover]
proof fn lemma_four_times_axis2(x: CubieSpec)
    requires
        x.ranges_ok(),
    ensures
        CubieSpec::mult(
            CubieSpec::mult(
                CubieSpec::mult(CubieSpec::mult(x, generator_spec(2)), generator_spec(2)),
                generator_spec(2),
            ),
            generator_spec(2),
        ) == x,
{
    let g = generator_spec(2);
    let x1 = CubieSpec::mult(x, g);
    let x2 = CubieSpec::mult(x1, g);
    let x3 = CubieSpec::mult(x2, g);
    let x4 = CubieSpec::mult(x3, g);
    assert(x1.co[4] == (x.co[0] + 2) % 3);
    assert(x2.co[5] == (x1.co[4] + 1) % 3);
    assert(x3.co[1] == (x2.co[5] + 2) % 3);
    assert(x4.co[0] == (x3.co[1] + 1) % 3);
    assert(x4.cp[0] == x.cp[0]);
    assert(x4.co[0] == x.co[0]);
    assert(x1.co[0] == (x.co[1] + 1) % 3);
    assert(x2.co[4] == (x1.co[0] + 2) % 3);
    assert(x3.co[5] == (x2.co[4] + 1) % 3);
    assert(x4.co[1] == (x3.co[5] + 2) % 3);
    assert(x4.cp[1] == x.cp[1]);
    assert(x4.co[1] == x.co[1]);
    assert(x1.co[2] == (x.co[2] + 0) % 3);
    assert(x2.co[2] == (x1.co[2] + 0) % 3);
    assert(x3.co[2] == (x2.co[2] + 0) % 3);
    assert(x4.co[2] == (x3.co[2] + 0) % 3);
    assert(x4.cp[2] == x.cp[2]);
    assert(x4.co[2] == x.co[2]);
    assert(x1.co[3] == (x.co[3] + 0) % 3);
    assert(x2.co[3] == (x1.co[3] + 0) % 3);
    assert(x3.co[3] == (x2.co[3] + 0) % 3);
    assert(x4.co[3] == (x3.co[3] + 0) % 3);
    assert(x4.cp[3] == x.cp[3]);
    assert(x4.co[3] == x.co[3]);
    assert(x1.co[5] == (x.co[4] + 1) % 3);
    assert(x2.co[1] == (x1.co[5] + 2) % 3);
    assert(x3.co[0] == (x2.co[1] + 1) % 3);
    assert(x4.co[4] == (x3.co[0] + 2) % 3);
    assert(x4.cp[4] == x.cp[4]);
    assert(x4.co[4] == x.co[4]);
    assert(x1.co[1] == (x.co[5] + 2) % 3);
    assert(x2.co[0] == (x1.co[1] + 1) % 3);
    assert(x3.co[4] == (x2.co[0] + 2) % 3);
    assert(x4.co[5] == (x3.co[4] + 1) % 3);
    assert(x4.cp[5] == x.cp[5]);
    assert(x4.co[5] == x.co[5]);
    assert(x1.co[6] == (x.co[6] + 0) % 3);
    assert(x2.co[6] == (x1.co[6] + 0) % 3);
    assert(x3.co[6] == (x2.co[6] + 0) % 3);
    assert(x4.co[6] == (x3.co[6] + 0) % 3);
    assert(x4.cp[6] == x.cp[6]);
    assert(x4.co[6] == x.co[6]);
    assert(x1.co[7] == (x.co[7] + 0) % 3);
    assert(x2.co[7] == (x1.co[7] + 0) % 3);
    assert(x3.co[7] == (x2.co[7] + 0) % 3);
    assert(x4.co[7] == (x3.co[7] + 0) % 3);
    assert(x4.cp[7] == x.cp[7]);
    assert(x4.co[7] == x.co[7]);
    assert(x1.eo[0] == (x.eo[0] + 0) % 2);
    assert(x2.eo[0] == (x1.eo[0] + 0) % 2);
    assert(x3.eo[0] == (x2.eo[0] + 0) % 2);
    assert(x4.eo[0] == (x3.eo[0] + 0) % 2);
    assert(x4.ep[0] == x.ep[0]);
    assert(x4.eo[0] == x.eo[0]);
    assert(x1.eo[8] == (x.eo[1] + 1) % 2);
    assert(x2.eo[5] == (x1.eo[8] + 1) % 2);
    assert(x3.eo[9] == (x2.eo[5] + 1) % 2);
    assert(x4.eo[1] == (x3.eo[9] + 1) % 2);
    assert(x4.ep[1] == x.ep[1]);
    assert(x4.eo[1] == x.eo[1]);
    assert(x1.eo[2] == (x.eo[2] + 0) % 2);
    assert(x2.eo[2] == (x1.eo[2] + 0) % 2);
    assert(x3.eo[2] == (x2.eo[2] + 0) % 2);
    assert(x4.eo[2] == (x3.eo[2] + 0) % 2);
    assert(x4.ep[2] == x.ep[2]);
    assert(x4.eo[2] == x.eo[2]);
    assert(x1.eo[3] == (x.eo[3] + 0) % 2);
    assert(x2.eo[3] == (x1.eo[3] + 0) % 2);
    assert(x3.eo[3] == (x2.eo[3] + 0) % 2);
    assert(x4.eo[3] == (x3.eo[3] + 0) % 2);
    assert(x4.ep[3] == x.ep[3]);
    assert(x4.eo[3] == x.eo[3]);
    assert(x1.eo[4] == (x.eo[4] + 0) % 2);
    assert(x2.eo[4] == (x1.eo[4] + 0) % 2);
    assert(x3.eo[4] == (x2.eo[4] + 0) % 2);
    assert(x4.eo[4] == (x3.eo[4] + 0) % 2);
    assert(x4.ep[4] == x.ep[4]);
    assert(x4.eo[4] == x.eo[4]);
    assert(x1.eo[9] == (x.eo[5] + 1) % 2);
    assert(x2.eo[1] == (x1.eo[9] + 1) % 2);
    assert(x3.eo[8] == (x2.eo[1] + 1) % 2);
    assert(x4.eo[5] == (x3.eo[8] + 1) % 2);
    assert(x4.ep[5] == x.ep[5]);
    assert(x4.eo[5] == x.eo[5]);
    assert(x1.eo[6] == (x.eo[6] + 0) % 2);
    assert(x2.eo[6] == (x1.eo[6] + 0) % 2);
    assert(x3.eo[6] == (x2.eo[6] + 0) % 2);
    assert(x4.eo[6] == (x3.eo[6] + 0) % 2);
    assert(x4.ep[6] == x.ep[6]);
    assert(x4.eo[6] == x.eo[6]);
    assert(x1.eo[7] == (x.eo[7] + 0) % 2);
    assert(x2.eo[7] == (x1.eo[7] + 0) % 2);
    assert(x3.eo[7] == (x2.eo[7] + 0) % 2);
    assert(x4.eo[7] == (x3.eo[7] + 0) % 2);
    assert(x4.ep[7] == x.ep[7]);
    assert(x4.eo[7] == x.eo[7]);
    assert(x1.eo[5] == (x.eo[8] + 1) % 2);
    assert(x2.eo[9] == (x1.eo[5] + 1) % 2);
    assert(x3.eo[1] == (x2.eo[9] + 1) % 2);
    assert(x4.eo[8] == (x3.eo[1] + 1) % 2);
    assert(x4.ep[8] == x.ep[8]);
    assert(x4.eo[8] == x.eo[8]);
    assert(x1.eo[1] == (x.eo[9] + 1) % 2);
    assert(x2.eo[8] == (x1.eo[1] + 1) % 2);
    assert(x3.eo[5] == (x2.eo[8] + 1) % 2);
    assert(x4.eo[9] == (x3.eo[5] + 1) % 2);
    assert(x4.ep[9] == x.ep[9]);
    assert(x4.eo[9] == x.eo[9]);
    assert(x1.eo[10] == (x.eo[10] + 0) % 2);
    assert(x2.eo[10] == (x1.eo[10] + 0) % 2);
    assert(x3.eo[10] == (x2.eo[10] + 0) % 2);
    assert(x4.eo[10] == (x3.eo[10] + 0) % 2);
    assert(x4.ep[10] == x.ep[10]);
    assert(x4.eo[10] == x.eo[10]);
    assert(x1.eo[11] == (x.eo[11] + 0) % 2);
    assert(x2.eo[11] == (x1.eo[11] + 0) % 2);
    assert(x3.eo[11] == (x2.eo[11] + 0) % 2);
    assert(x4.eo[11] == (x3.eo[11] + 0) % 2);
    assert(x4.ep[11] == x.ep[11]);
    assert(x4.eo[11] == x.eo[11]);
    assert(x4.cp =~= x.cp);
    assert(x4.co =~= x.co);
    assert(x4.ep =~= x.ep);
    assert(x4.eo =~= x.eo);
    assert(x4 =~= x);
}


#[verifier::rlimit(100)]
#[verifier::spinoff_prover]
proof fn lemma_four_times_axis3(x: CubieSpec)
    requires
        x.ranges_ok(),
    ensures
        CubieSpec::mult(
            CubieSpec::mult(
                CubieSpec::mult(CubieSpec::mult(x, generator_spec(3)), generator_spec(3)),
                generator_spec(3),
            ),
            generator_spec(3),
        ) == x,
{
    let g = generator_spec(3);
    let x1 = CubieSpec::mult(x, g);
    let x2 = CubieSpec::mult(x1, g);
    let x3 = CubieSpec::mult(x2, g);
    let x4 = CubieSpec::mult(x3, g);
    assert(x1.co[0] == (x.co[0] + 0) % 3);
    assert(x2.co[0] == (x1.co[0] + 0) % 3);
    assert(x3.co[0] == (x2.co[0] + 0) % 3);
    assert(x4.co[0] == (x3.co[0] + 0) % 3);
    assert(x4.cp[0] == x.cp[0]);
    assert(x4.co[0] == x.co[0]);
    assert(x1.co[1] == (x.co[1] + 0) % 3);
    assert(x2.co[1] == (x1.co[1] + 0) % 3);
    assert(x3.co[1] == (x2.co[1] + 0) % 3);
    assert(x4.co[1] == (x3.co[1] + 0) % 3);
    assert(x4.cp[1] == x.cp[1]);
    assert(x4.co[1] == x.co[1]);
    assert(x1.co[2] == (x.co[2] + 0) % 3);
    assert(x2.co[2] == (x1.co[2] + 0) % 3);
    assert(x3.co[2] == (x2.co[2] + 0) % 3);
    assert(x4.co[2] == (x3.co[2] + 0) % 3);
    assert(x4.cp[2] == x.cp[2]);
    assert(x4.co[2] == x.co[2]);
    assert(x1.co[3] == (x.co[3] + 0) % 3);
    assert(x2.co[3] == (x1.co[3] + 0) % 3);
    assert(x3.co[3] == (x2.co[3] + 0) % 3);
    assert(x4.co[3] == (x3.co[3] + 0) % 3);
    assert(x4.cp[3] == x.cp[3]);
    assert(x4.co[3] == x.co[3]);
    assert(x1.co[7] == (x.co[4] + 0) % 3);
    assert(x2.co[6] == (x1.co[7] + 0) % 3);
    assert(x3.co[5] == (x2.co[6] + 0) % 3);
    assert(x4.co[4] == (x3.co[5] + 0) % 3);
    assert(x4.cp[4] == x.cp[4]);
    assert(x4.co[4] == x.co[4]);
    assert(x1.co[4] == (x.co[5] + 0) % 3);
    assert(x2.co[7] == (x1.co[4] + 0) % 3);
    assert(x3.co[6] == (x2.co[7] + 0) % 3);
    assert(x4.co[5] == (x3.co[6] + 0) % 3);
    assert(x4.cp[5] == x.cp[5]);
    assert(x4.co[5] == x.co[5]);
    assert(x1.co[5] == (x.co[6] + 0) % 3);
    assert(x2.co[4] == (x1.co[5] + 0) % 3);
    assert(x3.co[7] == (x2.co[4] + 0) % 3);
    assert(x4.co[6] == (x3.co[7] + 0) % 3);
    assert(x4.cp[6] == x.cp[6]);
    assert(x4.co[6] == x.co[6]);
    assert(x1.co[6] == (x.co[7] + 0) % 3);
    assert(x2.co[5] == (x1.co[6] + 0) % 3);
    assert(x3.co[4] == (x2.co[5] + 0) % 3);
    assert(x4.co[7] == (x3.co[4] + 0) % 3);
    assert(x4.cp[7] == x.cp[7]);
    assert(x4.co[7] == x.co[7]);
    assert(x1.eo[0] == (x.eo[0] + 0) % 2);
    assert(x2.eo[0] == (x1.eo[0] + 0) % 2);
    assert(x3.eo[0] == (x2.eo[0] + 0) % 2);
    assert(x4.eo[0] == (x3.eo[0] + 0) % 2);
    assert(x4.ep[0] == x.ep[0]);
    assert(x4.eo[0] == x.eo[0]);
    assert(x1.eo[1] == (x.eo[1] + 0) % 2);
    assert(x2.eo[1] == (x1.eo[1] + 0) % 2);
    assert(x3.eo[1] == (x2.eo[1] + 0) % 2);
    assert(x4.eo[1] == (x3.eo[1] + 0) % 2);
    assert(x4.ep[1] == x.ep[1]);
    assert(x4.eo[1] == x.eo[1]);
    assert(x1.eo[2] == (x.eo[2] + 0) % 2);
    assert(x2.eo[2] == (x1.eo[2] + 0) % 2);
    assert(x3.eo[2] == (x2.eo[2] + 0) % 2);
    assert(x4.eo[2] == (x3.eo[2] + 0) % 2);
    assert(x4.ep[2] == x.ep[2]);
    assert(x4.eo[2] == x.eo[2]);
    assert(x1.eo[3] == (x.eo[3] + 0) % 2);
    assert(x2.eo[3] == (x1.eo[3] + 0) % 2);
    assert(x3.eo[3] == (x2.eo[3] + 0) % 2);
    assert(x4.eo[3] == (x3.eo[3] + 0) % 2);
    assert(x4.ep[3] == x.ep[3]);
    assert(x4.eo[3] == x.eo[3]);
    assert(x1.eo[7] == (x.eo[4] + 0) % 2);
    assert(x2.eo[6] == (x1.eo[7] + 0) % 2);
    assert(x3.eo[5] == (x2.eo[6] + 0) % 2);
    assert(x4.eo[4] == (x3.eo[5] + 0) % 2);
    assert(x4.ep[4] == x.ep[4]);
    assert(x4.eo[4] == x.eo[4]);
    assert(x1.eo[4] == (x.eo[5] + 0) % 2);
    assert(x2.eo[7] == (x1.eo[4] + 0) % 2);
    assert(x3.eo[6] == (x2.eo[7] + 0) % 2);
    assert(x4.eo[5] == (x3.eo[6] + 0) % 2);
    assert(x4.ep[5] == x.ep[5]);
    assert(x4.eo[5] == x.eo[5]);
    assert(x1.eo[5] == (x.eo[6] + 0) % 2);
    assert(x2.eo[4] == (x1.eo[5] + 0) % 2);
    assert(x3.eo[7] == (x2.eo[4] + 0) % 2);
    assert(x4.eo[6] == (x3.eo[7] + 0) % 2);
    assert(x4.ep[6] == x.ep[6]);
    assert(x4.eo[6] == x.eo[6]);
    assert(x1.eo[6] == (x.eo[7] + 0) % 2);
    assert(x2.eo[5] == (x1.eo[6] + 0) % 2);
    assert(x3.eo[4] == (x2.eo[5] + 0) % 2);
    assert(x4.eo[7] == (x3.eo[4] + 0) % 2);
    assert(x4.ep[7] == x.ep[7]);
    assert(x4.eo[7] == x.eo[7]);
    assert(x1.eo[8] == (x.eo[8] + 0) % 2);
    assert(x2.eo[8] == (x1.eo[8] + 0) % 2);
    assert(x3.eo[8] == (x2.eo[8] + 0) % 2);
    assert(x4.eo[8] == (x3.eo[8] + 0) % 2);
    assert(x4.ep[8] == x.ep[8]);
    assert(x4.eo[8] == x.eo[8]);
    assert(x1.eo[9] == (x.eo[9] + 0) % 2);
    assert(x2.eo[9] == (x1.eo[9] + 0) % 2);
    assert(x3.eo[9] == (x2.eo[9] + 0) % 2);
    assert(x4.eo[9] == (x3.eo[9] + 0) % 2);
    assert(x4.ep[9] == x.ep[9]);
    assert(x4.eo[9] == x.eo[9]);
    assert(x1.eo[10] == (x.eo[10] + 0) % 2);
    assert(x2.eo[10] == (x1.eo[10] + 0) % 2);
    assert(x3.eo[10] == (x2.eo[10] + 0) % 2);
    assert(x4.eo[10] == (x3.eo[10] + 0) % 2);
    assert(x4.ep[10] == x.ep[10]);
    assert(x4.eo[10] == x.eo[10]);
    assert(x1.eo[11] == (x.eo[11] + 0) % 2);
    assert(x2.eo[11] == (x1.eo[11] + 0) % 2);
    assert(x3.eo[11] == (x2.eo[11] + 0) % 2);
    assert(x4.eo[11] == (x3.eo[11] + 0) % 2);
    assert(x4.ep[11] == x.ep[11]);
    assert(x4.eo[11] == x.eo[11]);
    assert(x4.cp =~= x.cp);
    assert(x4.co =~= x.co);
    assert(x4.ep =~= x.ep);
    assert(x4.eo =~= x.eo);
    assert(x4 =~= x);
}


#[verifier::rlimit(100)]
#[verifier::spinoff_prover]
proof fn lemma_four_times_axis4(x: CubieSpec)
    requires
        x.ranges_ok(),
    ensures
        CubieSpec::mult(
            CubieSpec::mult(
                CubieSpec::mult(CubieSpec::mult(x, generator_spec(4)), generator_spec(4)),
                generator_spec(4),
            ),
            generator_spec(4),
        ) == x,
{
    let g = generator_spec(4);
    let x1 = CubieSpec::mult(x, g);
    let x2 = CubieSpec::mult(x1, g);
    let x3 = CubieSpec::mult(x2, g);
    let x4 = CubieSpec::mult(x3, g);
    assert(x1.co[0] == (x.co[0] + 0) % 3);
    assert(x2.co[0] == (x1.co[0] + 0) % 3);
    assert(x3.co[0] == (x2.co[0] + 0) % 3);
    assert(x4.co[0] == (x3.co[0] + 0) % 3);
    assert(x4.cp[0] == x.cp[0]);
    assert(x4.co[0] == x.co[0]);
    assert(x1.co[5] == (x.co[1] + 2) % 3);
    assert(x2.co[6] == (x1.co[5] + 1) % 3);
    assert(x3.co[2] == (x2.co[6] + 2) % 3);
    assert(x4.co[1] == (x3.co[2] + 1) % 3);
    assert(x4.cp[1] == x.cp[1]);
    assert(x4.co[1] == x.co[1]);
    assert(x1.co[1] == (x.co[2] + 1) % 3);
    assert(x2.co[5] == (x1.co[1] + 2) % 3);
    assert(x3.co[6] == (x2.co[5] + 1) % 3);
    assert(x4.co[2] == (x3.co[6] + 2) % 3);
    assert(x4.cp[2] == x.cp[2]);
    assert(x4.co[2] == x.co[2]);
    assert(x1.co[3] == (x.co[3] + 0) % 3);
    assert(x2.co[3] == (x1.co[3] + 0) % 3);
    assert(x3.co[3] == (x2.co[3] + 0) % 3);
    assert(x4.co[3] == (x3.co[3] + 0) % 3);
    assert(x4.cp[3] == x.cp[3]);
    assert(x4.co[3] == x.co[3]);
    assert(x1.co[4] == (x.co[4] + 0) % 3);
    assert(x2.co[4] == (x1.co[4] + 0) % 3);
    assert(x3.co[4] == (x2.co[4] + 0) % 3);
    assert(x4.co[4] == (x3.co[4] + 0) % 3);
    assert(x4.cp[4] == x.cp[4]);
    assert(x4.co[4] == x.co[4]);
    assert(x1.co[6] == (x.co[5] + 1) % 3);
    assert(x2.co[2] == (x1.co[6] + 2) % 3);
    assert(x3.co[1] == (x2.co[2] + 1) % 3);
    assert(x4.co[5] == (x3.co[1] + 2) % 3);
    assert(x4.cp[5] == x.cp[5]);
    assert(x4.co[5] == x.co[5]);
    assert(x1.co[2] == (x.co[6] + 2) % 3);
    assert(x2.co[1] == (x1.co[2] + 1) % 3);
    assert(x3.co[5] == (x2.co[1] + 2) % 3);
    assert(x4.co[6] == (x3.co[5] + 1) % 3);
    assert(x4.cp[6] == x.cp[6]);
    assert(x4.co[6] == x.co[6]);
    assert(x1.co[7] == (x.co[7] + 0) % 3);
    assert(x2.co[7] == (x1.co[7] + 0) % 3);
    assert(x3.co[7] == (x2.co[7] + 0) % 3);
    assert(x4.co[7] == (x3.co[7] + 0) % 3);
    assert(x4.cp[7] == x.cp[7]);
    assert(x4.co[7] == x.co[7]);
    assert(x1.eo[0] == (x.eo[0] + 0) % 2);
    assert(x2.eo[0] == (x1.eo[0] + 0) % 2);
    assert(x3.eo[0] == (x2.eo[0] + 0) % 2);
    assert(x4.eo[0] == (x3.eo[0] + 0) % 2);
    assert(x4.ep[0] == x.ep[0]);
    assert(x4.eo[0] == x.eo[0]);
    assert(x1.eo[1] == (x.eo[1] + 0) % 2);
    assert(x2.eo[1] == (x1.eo[1] + 0) % 2);
    assert(x3.eo[1] == (x2.eo[1] + 0) % 2);
    assert(x4.eo[1] == (x3.eo[1] + 0) % 2);
    assert(x4.ep[1] == x.ep[1]);
    assert(x4.eo[1] == x.eo[1]);
    assert(x1.eo[9] == (x.eo[2] + 0) % 2);
    assert(x2.eo[6] == (x1.eo[9] + 0) % 2);
    assert(x3.eo[10] == (x2.eo[6] + 0) % 2);
    assert(x4.eo[2] == (x3.eo[10] + 0) % 2);
    assert(x4.ep[2] == x.ep[2]);
    assert(x4.eo[2] == x.eo[2]);
    assert(x1.eo[3] == (x.eo[3] + 0) % 2);
    assert(x2.eo[3] == (x1.eo[3] + 0) % 2);
    assert(x3.eo[3] == (x2.eo[3] + 0) % 2);
    assert(x4.eo[3] == (x3.eo[3] + 0) % 2);
    assert(x4.ep[3] == x.ep[3]);
    assert(x4.eo[3] == x.eo[3]);
    assert(x1.eo[4] == (x.eo[4] + 0) % 2);
    assert(x2.eo[4] == (x1.eo[4] + 0) % 2);
    assert(x3.eo[4] == (x2.eo[4] + 0) % 2);
    assert(x4.eo[4] == (x3.eo[4] + 0) % 2);
    assert(x4.ep[4] == x.ep[4]);
    assert(x4.eo[4] == x.eo[4]);
    assert(x1.eo[5] == (x.eo[5] + 0) % 2);
    assert(x2.eo[5] == (x1.eo[5] + 0) % 2);
    assert(x3.eo[5] == (x2.eo[5] + 0) % 2);
    assert(x4.eo[5] == (x3.eo[5] + 0) % 2);
    assert(x4.ep[5] == x.ep[5]);
    assert(x4.eo[5] == x.eo[5]);
    assert(x1.eo[10] == (x.eo[6] + 0) % 2);
    assert(x2.eo[2] == (x1.eo[10] + 0) % 2);
    assert(x3.eo[9] == (x2.eo[2] + 0) % 2);
    assert(x4.eo[6] == (x3.eo[9] + 0) % 2);
    assert(x4.ep[6] == x.ep[6]);
    assert(x4.eo[6] == x.eo[6]);
    assert(x1.eo[7] == (x.eo[7] + 0) % 2);
    assert(x2.eo[7] == (x1.eo[7] + 0) % 2);
    assert(x3.eo[7] == (x2.eo[7] + 0) % 2);
    assert(x4.eo[7] == (x3.eo[7] + 0) % 2);
    assert(x4.ep[7] == x.ep[7]);
    assert(x4.eo[7] == x.eo[7]);
    assert(x1.eo[8] == (x.eo[8] + 0) % 2);
    assert(x2.eo[8] == (x1.eo[8] + 0) % 2);
    assert(x3.eo[8] == (x2.eo[8] + 0) % 2);
    assert(x4.eo[8] == (x3.eo[8] + 0) % 2);
    assert(x4.ep[8] == x.ep[8]);
    assert(x4.eo[8] == x.eo[8]);
    assert(x1.eo[6] == (x.eo[9] + 0) % 2);
    assert(x2.eo[10] == (x1.eo[6] + 0) % 2);
    assert(x3.eo[2] == (x2.eo[10] + 0) % 2);
    assert(x4.eo[9] == (x3.eo[2] + 0) % 2);
    assert(x4.ep[9] == x.ep[9]);
    assert(x4.eo[9] == x.eo[9]);
    assert(x1.eo[2] == (x.eo[10] + 0) % 2);
    assert(x2.eo[9] == (x1.eo[2] + 0) % 2);
    assert(x3.eo[6] == (x2.eo[9] + 0) % 2);
    assert(x4.eo[10] == (x3.eo[6] + 0) % 2);
    assert(x4.ep[10] == x.ep[10]);
    assert(x4.eo[10] == x.eo[10]);
    assert(x1.eo[11] == (x.eo[11] + 0) % 2);
    assert(x2.eo[11] == (x1.eo[11] + 0) % 2);
    assert(x3.eo[11] == (x2.eo[11] + 0) % 2);
    assert(x4.eo[11] == (x3.eo[11] + 0) % 2);
    assert(x4.ep[11] == x.ep[11]);
    assert(x4.eo[11] == x.eo[11]);
    assert(x4.cp =~= x.cp);
    assert(x4.co =~= x.co);
    assert(x4.ep =~= x.ep);
    assert(x4.eo =~= x.eo);
    assert(x4 =~= x);
}


#[verifier::rlimit(100)]
#[verifier::spinoff_prover]
proof fn lemma_four_times_axis5(x: CubieSpec)
    requires
        x.ranges_ok(),
    ensures
        CubieSpec::mult(
            CubieSpec::mult(
                CubieSpec::mult(CubieSpec::mult(x, generator_spec(5)), generator_spec(5)),
                generator_spec(5),
            ),
            generator_spec(5),
        ) == x,
{
    let g = generator_spec(5);
    let x1 = CubieSpec::mult(x, g);
    let x2 = CubieSpec::mult(x1, g);
    let x3 = CubieSpec::mult(x2, g);
    let x4 = CubieSpec::mult(x3, g);
    assert(x1.co[0] == (x.co[0] + 0) % 3);
    assert(x2.co[0] == (x1.co[0] + 0) % 3);
    assert(x3.co[0] == (x2.co[0] + 0) % 3);
    assert(x4.co[0] == (x3.co[0] + 0) % 3);
    assert(x4.cp[0] == x.cp[0]);
    assert(x4.co[0] == x.co[0]);
    assert(x1.co[1] == (x.co[1] + 0) % 3);
    assert(x2.co[1] == (x1.co[1] + 0) % 3);
    assert(x3.co[1] == (x2.co[1] + 0) % 3);
    assert(x4.co[1] == (x3.co[1] + 0) % 3);
    assert(x4.cp[1] == x.cp[1]);
    assert(x4.co[1] == x.co[1]);
    assert(x1.co[6] == (x.co[2] + 2) % 3);
    assert(x2.co[7] == (x1.co[6] + 1) % 3);
    assert(x3.co[3] == (x2.co[7] + 2) % 3);
    assert(x4.co[2] == (x3.co[3] + 1) % 3);
    assert(x4.cp[2] == x.cp[2]);
    assert(x4.co[2] == x.co[2]);
    assert(x1.co[2] == (x.co[3] + 1) % 3);
    assert(x2.co[6] == (x1.co[2] + 2) % 3);
    assert(x3.co[7] == (x2.co[6] + 1) % 3);
    assert(x4.co[3] == (x3.co[7] + 2) % 3);
    assert(x4.cp[3] == x.cp[3]);
    assert(x4.co[3] == x.co[3]);
    assert(x1.co[4] == (x.co[4] + 0) % 3);
    assert(x2.co[4] == (x1.co[4] + 0) % 3);
    assert(x3.co[4] == (x2.co[4] + 0) % 3);
    assert(x4.co[4] == (x3.co[4] + 0) % 3);
    assert(x4.cp[4] == x.cp[4]);
    assert(x4.co[4] == x.co[4]);
    assert(x1.co[5] == (x.co[5] + 0) % 3);
    assert(x2.co[5] == (x1.co[5] + 0) % 3);
    assert(x3.co[5] == (x2.co[5] + 0) % 3);
    assert(x4.co[5] == (x3.co[5] + 0) % 3);
    assert(x4.cp[5] == x.cp[5]);
    assert(x4.co[5] == x.co[5]);
    assert(x1.co[7] == (x.co[6] + 1) % 3);
    assert(x2.co[3] == (x1.co[7] + 2) % 3);
    assert(x3.co[2] == (x2.co[3] + 1) % 3);
    assert(x4.co[6] == (x3.co[2] + 2) % 3);
    assert(x4.cp[6] == x.cp[6]);
    assert(x4.co[6] == x.co[6]);
    assert(x1.co[3] == (x.co[7] + 2) % 3);
    assert(x2.co[2] == (x1.co[3] + 1) % 3);
    assert(x3.co[6] == (x2.co[2] + 2) % 3);
    assert(x4.co[7] == (x3.co[6] + 1) % 3);
    assert(x4.cp[7] == x.cp[7]);
    assert(x4.co[7] == x.co[7]);
    assert(x1.eo[0] == (x.eo[0] + 0) % 2);
    assert(x2.eo[0] == (x1.eo[0] + 0) % 2);
    assert(x3.eo[0] == (x2.eo[0] + 0) % 2);
    assert(x4.eo[0] == (x3.eo[0] + 0) % 2);
    assert(x4.ep[0] == x.ep[0]);
    assert(x4.eo[0] == x.eo[0]);
    assert(x1.eo[1] == (x.eo[1] + 0) % 2);
    assert(x2.eo[1] == (x1.eo[1] + 0) % 2);
    assert(x3.eo[1] == (x2.eo[1] + 0) % 2);
    assert(x4.eo[1] == (x3.eo[1] + 0) % 2);
    assert(x4.ep[1] == x.ep[1]);
    assert(x4.eo[1] == x.eo[1]);
    assert(x1.eo[2] == (x.eo[2] + 0) % 2);
    assert(x2.eo[2] == (x1.eo[2] + 0) % 2);
    assert(x3.eo[2] == (x2.eo[2] + 0) % 2);
    assert(x4.eo[2] == (x3.eo[2] + 0) % 2);
    assert(x4.ep[2] == x.ep[2]);
    assert(x4.eo[2] == x.eo[2]);
    assert(x1.eo[10] == (x.eo[3] + 1) % 2);
    assert(x2.eo[7] == (x1.eo[10] + 1) % 2);
    assert(x3.eo[11] == (x2.eo[7] + 1) % 2);
    assert(x4.eo[3] == (x3.eo[11] + 1) % 2);
    assert(x4.ep[3] == x.ep[3]);
    assert(x4.eo[3] == x.eo[3]);
    assert(x1.eo[4] == (x.eo[4] + 0) % 2);
    assert(x2.eo[4] == (x1.eo[4] + 0) % 2);
    assert(x3.eo[4] == (x2.eo[4] + 0) % 2);
    assert(x4.eo[4] == (x3.eo[4] + 0) % 2);
    assert(x4.ep[4] == x.ep[4]);
    assert(x4.eo[4] == x.eo[4]);
    assert(x1.eo[5] == (x.eo[5] + 0) % 2);
    assert(x2.eo[5] == (x1.eo[5] + 0) % 2);
    assert(x3.eo[5] == (x2.eo[5] + 0) % 2);
    assert(x4.eo[5] == (x3.eo[5] + 0) % 2);
    assert(x4.ep[5] == x.ep[5]);
    assert(x4.eo[5] == x.eo[5]);
    assert(x1.eo[6] == (x.eo[6] + 0) % 2);
    assert(x2.eo[6] == (x1.eo[6] + 0) % 2);
    assert(x3.eo[6] == (x2.eo[6] + 0) % 2);
    assert(x4.eo[6] == (x3.eo[6] + 0) % 2);
    assert(x4.ep[6] == x.ep[6]);
    assert(x4.eo[6] == x.eo[6]);
    assert(x1.eo[11] == (x.eo[7] + 1) % 2);
    assert(x2.eo[3] == (x1.eo[11] + 1) % 2);
    assert(x3.eo[10] == (x2.eo[3] + 1) % 2);
    assert(x4.eo[7] == (x3.eo[10] + 1) % 2);
    assert(x4.ep[7] == x.ep[7]);
    assert(x4.eo[7] == x.eo[7]);
    assert(x1.eo[8] == (x.eo[8] + 0) % 2);
    assert(x2.eo[8] == (x1.eo[8] + 0) % 2);
    assert(x3.eo[8] == (x2.eo[8] + 0) % 2);
    assert(x4.eo[8] == (x3.eo[8] + 0) % 2);
    assert(x4.ep[8] == x.ep[8]);
    assert(x4.eo[8] == x.eo[8]);
    assert(x1.eo[9] == (x.eo[9] + 0) % 2);
    assert(x2.eo[9] == (x1.eo[9] + 0) % 2);
    assert(x3.eo[9] == (x2.eo[9] + 0) % 2);
    assert(x4.eo[9] == (x3.eo[9] + 0) % 2);
    assert(x4.ep[9] == x.ep[9]);
    assert(x4.eo[9] == x.eo[9]);
    assert(x1.eo[7] == (x.eo[10] + 1) % 2);
    assert(x2.eo[11] == (x1.eo[7] + 1) % 2);
    assert(x3.eo[3] == (x2.eo[11] + 1) % 2);
    assert(x4.eo[10] == (x3.eo[3] + 1) % 2);
    assert(x4.ep[10] == x.ep[10]);
    assert(x4.eo[10] == x.eo[10]);
    assert(x1.eo[3] == (x.eo[11] + 1) % 2);
    assert(x2.eo[10] == (x1.eo[3] + 1) % 2);
    assert(x3.eo[7] == (x2.eo[10] + 1) % 2);
    assert(x4.eo[11] == (x3.eo[7] + 1) % 2);
    assert(x4.ep[11] == x.ep[11]);
    assert(x4.eo[11] == x.eo[11]);
    assert(x4.cp =~= x.cp);
    assert(x4.co =~= x.co);
    assert(x4.ep =~= x.ep);
    assert(x4.eo =~= x.eo);
    assert(x4 =~= x);
}


/// Applying a number of quarter turns and then the rest of the four
/// composes.
proof fn lemma_axis_add(x: CubieSpec, axis: int, a: nat, b: nat)
    ensures
        apply_axis(apply_axis(x, axis, a), axis, b) == apply_axis(x, axis, (a + b) as nat),
    decreases b,
{
    if b > 0 {
        lemma_axis_add(x, axis, a, (b - 1) as nat);
    }
}

/// The base-3 digits that the twist coordinate fixes reconstruct it.
#[verifier::rlimit(100)]
#[verifier::spinoff_prover]
proof fn lemma_twist_encode_decode(t: int)
    requires
        0 <= t < 2187,
    ensures
        twist_of(twist_state(t)) == t,
{
    let d = twist_digits(t);
    assert(twist_state(t).co == d);
    vstd::arithmetic::div_mod::lemma_fundamental_div_mod(t, 729);
    vstd::arithmetic::div_mod::lemma_mod_bound(t, 729);
    let q0 = t / 729;
    let r0 = t % 729;
    assert(0 <= q0 < 3);
    vstd::arithmetic::div_mod::lemma_fundamental_div_mod_converse(q0, 3, 0, q0);
    assert(d[0] == q0);
    vstd::arithmetic::div_mod::lemma_fundamental_div_mod(r0, 243);
    vstd::arithmetic::div_mod::lemma_mod_bound(r0, 243);
    let s1 = r0 / 243;
    let r1 = r0 % 243;
    assert(0 <= s1 < 3);
    assert(t == 243 * (3 * (q0) + s1) + r1);
    vstd::arithmetic::div_mod::lemma_fundamental_div_mod_converse(t, 243, 3 * (q0) + s1, r1);
    vstd::arithmetic::div_mod::lemma_mod_multiples_vanish(q0, s1, 3);
    vstd::arithmetic::div_mod::lemma_fundamental_div_mod_converse(s1, 3, 0, s1);
    assert(d[1] == s1);
    vstd::arithmetic::div_mod::lemma_fundamental_div_mod(r1, 81);
    vstd::arithmetic::div_mod::lemma_mod_bound(r1, 81);
    let s2 = r1 / 81;
    let r2 = r1 % 81;
    assert(0 <= s2 < 3);
    assert(t == 81 * (3 * (3 * (q0) + s1) + s2) + r2);
    vstd::arithmetic::div_mod::lemma_fundamental_div_mod_converse(t, 81, 3 * (3 * (q0) + s1) + s2, r2);
    vstd::arithmetic::div_mod::lemma_mod_multiples_vanish(3 * (q0) + s1, s2, 3);
    vstd::arithmetic::div_mod::lemma_fundamental_div_mod_converse(s2, 3, 0, s2);
    assert(d[2] == s2);
    vstd::arithmetic::div_mod::lemma_fundamental_div_mod(r2, 27);
    vstd::arithmetic::div_mod::lemma_mod_bound(r2, 27);
    let s3 = r2 / 27;
    let r3 = r2 % 27;
    assert(0 <= s3 < 3);
    assert(t == 27 * (3 * (3 * (3 * (q0) + s1) + s2) + s3) + r3);
    vstd::arithmetic::div_mod::lemma_fundamental_div_mod_converse(t, 27, 3 * (3 * (3 * (q0) + s1) + s2) + s3, r3);
    vstd::arithmetic::div_mod::lemma_mod_multiples_vanish(3 * (3 * (q0) + s1) + s2, s3, 3);
    vstd::arithmetic::div_mod::lemma_fundamental_div_mod_converse(s3, 3, 0, s3);
    assert(d[3] == s3);
    vstd::arithmetic::div_mod::lemma_fundamental_div_mod(r3, 9);
    vstd::arithmetic::div_mod::lemma_mod_bound(r3, 9);
    let s4 = r3 / 9;
    let r4 = r3 % 9;
    assert(0 <= s4 < 3);
    assert(t == 9 * (3 * (3 * (3 * (3 * (q0) + s1) + s2) + s3) + s4) + r4);
    vstd::arithmetic::div_mod::lemma_fundamental_div_mod_converse(t, 9, 3 * (3 * (3 * (3 * (q0) + s1) + s2) + s3) + s4, r4);
    vstd::arithmetic::div_mod::lemma_mod_multiples_vanish(3 * (3 * (3 * (q0) + s1) + s2) + s3, s4, 3);
    vstd::arithmetic::div_mod::lemma_fundamental_div_mod_converse(s4, 3, 0, s4);
    assert(d[4] == s4);
    vstd::arithmetic::div_mod::lemma_fundamental_div_mod(r4, 3);
    vstd::arithmetic::div_mod::lemma_mod_bound(r4, 3);
    let s5 = r4 / 3;
    let r5 = r4 % 3;
    assert(0 <= s5 < 3);
    assert(t == 3 * (3 * (3 * (3 * (3 * (3 * (q0) + s1) + s2) + s3) + s4) + s5) + r5);
    vstd::arithmetic::div_mod::lemma_fundamental_div_mod_converse(t, 3, 3 * (3 * (3 * (3 * (3 * (q0) + s1) + s2) + s3) + s4) + s5, r5);
    vstd::arithmetic::div_mod::lemma_mod_multiples_vanish(3 * (3 * (3 * (3 * (q0) + s1) + s2) + s3) + s4, s5, 3);
    vstd::arithmetic::div_mod::lemma_fundamental_div_mod_converse(s5, 3, 0, s5);
    assert(d[5] == s5);
    vstd::arithmetic::div_mod::lemma_fundamental_div_mod(r5, 1);
    vstd::arithmetic::div_mod::lemma_mod_bound(r5, 1);
    let s6 = r5 / 1;
    let r6 = r5 % 1;
    assert(0 <= s6 < 3);
    assert(t == 1 * (3 * (3 * (3 * (3 * (3 * (3 * (q0) + s1) + s2) + s3) + s4) + s5) + s6) + r6);
    vstd::arithmetic::div_mod::lemma_fundamental_div_mod_converse(t, 1, 3 * (3 * (3 * (3 * (3 * (3 * (q0) + s1) + s2) + s3) + s4) + s5) + s6, r6);
    vstd::arithmetic::div_mod::lemma_mod_multiples_vanish(3 * (3 * (3 * (3 * (3 * (q0) + s1) + s2) + s3) + s4) + s5, s6, 3);
    vstd::arithmetic::div_mod::lemma_fundamental_div_mod_converse(s6, 3, 0, s6);
    assert(d[6] == s6);
    assert(d[0] * 729 + d[1] * 243 + d[2] * 81 + d[3] * 27 + d[4] * 9 + d[5] * 3 + d[6] == t);
}

/// The twist coordinate of a state with a balanced twist sum determines
/// all eight corner orientations.
#[verifier::rlimit(100)]
#[verifier::spinoff_prover]
proof fn lemma_twist_decode_encode(x: CubieSpec)
    requires
        x.ranges_ok(),
        co_sum(x) % 3 == 0,
    ensures
        x.co == twist_digits(twist_of(x)),
{
    let t = twist_of(x);
    let d = twist_digits(t);
    assert(t == 729 * (x.co[0]) + (x.co[1] * 243 + x.co[2] * 81 + x.co[3] * 27 + x.co[4] * 9 + x.co[5] * 3 + x.co[6]));
    assert(0 <= (x.co[1] * 243 + x.co[2] * 81 + x.co[3] * 27 + x.co[4] * 9 + x.co[5] * 3 + x.co[6]) < 729);
    vstd::arithmetic::div_mod::lemma_fundamental_div_mod_converse(t, 729, x.co[0], x.co[1] * 243 + x.co[2] * 81 + x.co[3] * 27 + x.co[4] * 9 + x.co[5] * 3 + x.co[6]);
    vstd::arithmetic::div_mod::lemma_fundamental_div_mod_converse(x.co[0], 3, 0, x.co[0]);
    assert(d[0] == x.co[0]);
    assert(t == 243 * (x.co[0] * 3 + x.co[1]) + (x.co[2] * 81 + x.co[3] * 27 + x.co[4] * 9 + x.co[5] * 3 + x.co[6]));
    assert(0 <= (x.co[2] * 81 + x.co[3] * 27 + x.co[4] * 9 + x.co[5] * 3 + x.co[6]) < 243);
    vstd::arithmetic::div_mod::lemma_fundamental_div_mod_converse(t, 243, x.co[0] * 3 + x.co[1], x.co[2] * 81 + x.co[3] * 27 + x.co[4] * 9 + x.co[5] * 3 + x.co[6]);
    assert((x.co[0] * 3 + x.co[1]) == 3 * (x.co[0]) + x.co[1]);
    vstd::arithmetic::div_mod::lemma_mod_multiples_vanish(x.co[0], x.co[1], 3);
    vstd::arithmetic::div_mod::lemma_fundamental_div_mod_converse(x.co[1], 3, 0, x.co[1]);
    assert(d[1] == x.co[1]);
    assert(t == 81 * (x.co[0] * 9 + x.co[1] * 3 + x.co[2]) + (x.co[3] * 27 + x.co[4] * 9 + x.co[5] * 3 + x.co[6]));
    assert(0 <= (x.co[3] * 27 + x.co[4] * 9 + x.co[5] * 3 + x.co[6]) < 81);
    vstd::arithmetic::div_mod::lemma_fundamental_div_mod_converse(t, 81, x.co[0] * 9 + x.co[1] * 3 + x.co[2], x.co[3] * 27 + x.co[4] * 9 + x.co[5] * 3 + x.co[6]);
    assert((x.co[0] * 9 + x.co[1] * 3 + x.co[2]) == 3 * (x.co[0] * 3 + x.co[1]) + x.co[2]);
    vstd::arithmetic::div_mod::lemma_mod_multiples_vanish(x.co[0] * 3 + x.co[1], x.co[2], 3);
    vstd::arithmetic::div_mod::lemma_fundamental_div_mod_converse(x.co[2], 3, 0, x.co[2]);
    assert(d[2] == x.co[2]);
    assert(t == 27 * (x.co[0] * 27 + x.co[1] * 9 + x.co[2] * 3 + x.co[3]) + (x.co[4] * 9 + x.co[5] * 3 + x.co[6]));
    assert(0 <= (x.co[4] * 9 + x.co[5] * 3 + x.co[6]) < 27);
    vstd::arithmetic::div_mod::lemma_fundamental_div_mod_converse(t, 27, x.co[0] * 27 + x.co[1] * 9 + x.co[2] * 3 + x.co[3], x.co[4] * 9 + x.co[5] * 3 + x.co[6]);
    assert((x.co[0] * 27 + x.co[1] * 9 + x.co[2] * 3 + x.co[3]) == 3 * (x.co[0] * 9 + x.co[1] * 3 + x.co[2]) + x.co[3]);
    vstd::arithmetic::div_mod::lemma_mod_multiples_vanish(x.co[0] * 9 + x.co[1] * 3 + x.co[2], x.co[3], 3);
    vstd::arithmetic::div_mod::lemma_fundamental_div_mod_converse(x.co[3], 3, 0, x.co[3]);
    assert(d[3] == x.co[3]);
    assert(t == 9 * (x.co[0] * 81 + x.co[1] * 27 + x.co[2] * 9 + x.co[3] * 3 + x.co[4]) + (x.co[5] * 3 + x.co[6]));
    assert(0 <= (x.co[5] * 3 + x.co[6]) < 9);
    vstd::arithmetic::div_mod::lemma_fundamental_div_mod_converse(t, 9, x.co[0] * 81 + x.co[1] * 27 + x.co[2] * 9 + x.co[3] * 3 + x.co[4], x.co[5] * 3 + x.co[6]);
    assert((x.co[0] * 81 + x.co[1] * 27 + x.co[2] * 9 + x.co[3] * 3 + x.co[4]) == 3 * (x.co[0] * 27 + x.co[1] * 9 + x.co[2] * 3 + x.co[3]) + x.co[4]);
    vstd::arithmetic::div_mod::lemma_mod_multiples_vanish(x.co[0] * 27 + x.co[1] * 9 + x.co[2] * 3 + x.co[3], x.co[4], 3);
    vstd::arithmetic::div_mod::lemma_fundamental_div_mod_converse(x.co[4], 3, 0, x.co[4]);
    assert(d[4] == x.co[4]);
    assert(t == 3 * (x.co[0] * 243 + x.co[1] * 81 + x.co[2] * 27 + x.co[3] * 9 + x.co[4] * 3 + x.co[5]) + (x.co[6]));
    assert(0 <= (x.co[6]) < 3);
    vstd::arithmetic::div_mod::lemma_fundamental_div_mod_converse(t, 3, x.co[0] * 243 + x.co[1] * 81 + x.co[2] * 27 + x.co[3] * 9 + x.co[4] * 3 + x.co[5], x.co[6]);
    assert((x.co[0] * 243 + x.co[1] * 81 + x.co[2] * 27 + x.co[3] * 9 + x.co[4] * 3 + x.co[5]) == 3 * (x.co[0] * 81 + x.co[1] * 27 + x.co[2] * 9 + x.co[3] * 3 + x.co[4]) + x.co[5]);
    vstd::arithmetic::div_mod::lemma_mod_multiples_vanish(x.co[0] * 81 + x.co[1] * 27 + x.co[2] * 9 + x.co[3] * 3 + x.co[4], x.co[5], 3);
    vstd::arithmetic::div_mod::lemma_fundamental_div_mod_converse(x.co[5], 3, 0, x.co[5]);
    assert(d[5] == x.co[5]);
    assert(t == 1 * (x.co[0] * 729 + x.co[1] * 243 + x.co[2] * 81 + x.co[3] * 27 + x.co[4] * 9 + x.co[5] * 3 + x.co[6]) + (0));
    assert(0 <= (0) < 1);
    vstd::arithmetic::div_mod::lemma_fundamental_div_mod_converse(t, 1, x.co[0] * 729 + x.co[1] * 243 + x.co[2] * 81 + x.co[3] * 27 + x.co[4] * 9 + x.co[5] * 3 + x.co[6], 0);
    assert((x.co[0] * 729 + x.co[1] * 243 + x.co[2] * 81 + x.co[3] * 27 + x.co[4] * 9 + x.co[5] * 3 + x.co[6]) == 3 * (x.co[0] * 243 + x.co[1] * 81 + x.co[2] * 27 + x.co[3] * 9 + x.co[4] * 3 + x.co[5]) + x.co[6]);
    vstd::arithmetic::div_mod::lemma_mod_multiples_vanish(x.co[0] * 243 + x.co[1] * 81 + x.co[2] * 27 + x.co[3] * 9 + x.co[4] * 3 + x.co[5], x.co[6], 3);
    vstd::arithmetic::div_mod::lemma_fundamental_div_mod_converse(x.co[6], 3, 0, x.co[6]);
    assert(d[6] == x.co[6]);
    let s7 = x.co[0] + x.co[1] + x.co[2] + x.co[3] + x.co[4] + x.co[5] + x.co[6];
    vstd::arithmetic::div_mod::lemma_fundamental_div_mod(s7, 3);
    vstd::arithmetic::div_mod::lemma_mod_bound(s7, 3);
    assert(co_sum(x) == s7 + x.co[7]);
    assert((s7 % 3 + x.co[7]) % 3 == 0) by {
        vstd::arithmetic::div_mod::lemma_mod_multiples_vanish(s7 / 3, s7 % 3 + x.co[7], 3);
    }
    assert(x.co[7] == (3 - s7 % 3) % 3) by {
        let z = s7 % 3;
        assert(0 <= z < 3);
        assert((z + x.co[7]) % 3 == 0);
        if z == 0 {
            vstd::arithmetic::div_mod::lemma_fundamental_div_mod_converse(x.co[7], 3, 0, x.co[7]);
            assert((3 - 0) % 3 == 0) by {
                vstd::arithmetic::div_mod::lemma_fundamental_div_mod_converse(3, 3, 1, 0);
            }
        } else {
            assert(0 < z + x.co[7] < 6);
            if z + x.co[7] < 3 {
                vstd::arithmetic::div_mod::lemma_fundamental_div_mod_converse(
                    z + x.co[7],
                    3,
                    0,
                    z + x.co[7],
                );
            } else {
                vstd::arithmetic::div_mod::lemma_fundamental_div_mod_converse(
                    z + x.co[7],
                    3,
                    1,
                    z + x.co[7] - 3,
                );
            }
            assert(x.co[7] == 3 - z);
            vstd::arithmetic::div_mod::lemma_fundamental_div_mod_converse(3 - z, 3, 0, 3 - z);
        }
    }
    assert(d[7] == x.co[7]);
    assert(x.co =~= d);
}

/// The base-2 digits that the flip coordinate fixes reconstruct it.
#[verifier::rlimit(100)]
#[verifier::spinoff_prover]
proof fn lemma_flip_encode_decode(f: int)
    requires
        0 <= f < 2048,
    ensures
        flip_of(flip_state(f)) == f,
{
    let t = f;
    let d = flip_digits(f);
    assert(flip_state(f).eo == d);
    vstd::arithmetic::div_mod::lemma_fundamental_div_mod(t, 1024);
    vstd::arithmetic::div_mod::lemma_mod_bound(t, 1024);
    let q0 = t / 1024;
    let r0 = t % 1024;
    assert(0 <= q0 < 2);
    vstd::arithmetic::div_mod::lemma_fundamental_div_mod_converse(q0, 2, 0, q0);
    assert(d[0] == q0);
    vstd::arithmetic::div_mod::lemma_fundamental_div_mod(r0, 512);
    vstd::arithmetic::div_mod::lemma_mod_bound(r0, 512);
    let s1 = r0 / 512;
    let r1 = r0 % 512;
    assert(0 <= s1 < 2);
    assert(t == 512 * (2 * (q0) + s1) + r1);
    vstd::arithmetic::div_mod::lemma_fundamental_div_mod_converse(t, 512, 2 * (q0) + s1, r1);
    vstd::arithmetic::div_mod::lemma_mod_multiples_vanish(q0, s1, 2);
    vstd::arithmetic::div_mod::lemma_fundamental_div_mod_converse(s1, 2, 0, s1);
    assert(d[1] == s1);
    vstd::arithmetic::div_mod::lemma_fundamental_div_mod(r1, 256);
    vstd::arithmetic::div_mod::lemma_mod_bound(r1, 256);
    let s2 = r1 / 256;
    let r2 = r1 % 256;
    assert(0 <= s2 < 2);
    assert(t == 256 * (2 * (2 * (q0) + s1) + s2) + r2);
    vstd::arithmetic::div_mod::lemma_fundamental_div_mod_converse(t, 256, 2 * (2 * (q0) + s1) + s2, r2);
    vstd::arithmetic::div_mod::lemma_mod_multiples_vanish(2 * (q0) + s1, s2, 2);
    vstd::arithmetic::div_mod::lemma_fundamental_div_mod_converse(s2, 2, 0, s2);
    assert(d[2] == s2);
    vstd::arithmetic::div_mod::lemma_fundamental_div_mod(r2, 128);
    vstd::arithmetic::div_mod::lemma_mod_bound(r2, 128);
    let s3 = r2 / 128;
    let r3 = r2 % 128;
    assert(0 <= s3 < 2);
    assert(t == 128 * (2 * (2 * (2 * (q0) + s1) + s2) + s3) + r3);
    vstd::arithmetic::div_mod::lemma_fundamental_div_mod_converse(t, 128, 2 * (2 * (2 * (q0) + s1) + s2) + s3, r3);
    vstd::arithmetic::div_mod::lemma_mod_multiples_vanish(2 * (2 * (q0) + s1) + s2, s3, 2);
    vstd::arithmetic::div_mod::lemma_fundamental_div_mod_converse(s3, 2, 0, s3);
    assert(d[3] == s3);
    vstd::arithmetic::div_mod::lemma_fundamental_div_mod(r3, 64);
    vstd::arithmetic::div_mod::lemma_mod_bound(r3, 64);
    let s4 = r3 / 64;
    let r4 = r3 % 64;
    assert(0 <= s4 < 2);
    assert(t == 64 * (2 * (2 * (2 * (2 * (q0) + s1) + s2) + s3) + s4) + r4);
    vstd::arithmetic::div_mod::lemma_fundamental_div_mod_converse(t, 64, 2 * (2 * (2 * (2 * (q0) + s1) + s2) + s3) + s4, r4);
    vstd::arithmetic::div_mod::lemma_mod_multiples_vanish(2 * (2 * (2 * (q0) + s1) + s2) + s3, s4, 2);
    vstd::arithmetic::div_mod::lemma_fundamental_div_mod_converse(s4, 2, 0, s4);
    assert(d[4] == s4);
    vstd::arithmetic::div_mod::lemma_fundamental_div_mod(r4, 32);
    vstd::arithmetic::div_mod::lemma_mod_bound(r4, 32);
    let s5 = r4 / 32;
    let r5 = r4 % 32;
    assert(0 <= s5 < 2);
    assert(t == 32 * (2 * (2 * (2 * (2 * (2 * (q0) + s1) + s2) + s3) + s4) + s5) + r5);
    vstd::arithmetic::div_mod::lemma_fundamental_div_mod_converse(t, 32, 2 * (2 * (2 * (2 * (2 * (q0) + s1) + s2) + s3) + s4) + s5, r5);
    vstd::arithmetic::div_mod::lemma_mod_multiples_vanish(2 * (2 * (2 * (2 * (q0) + s1) + s2) + s3) + s4, s5, 2);
    vstd::arithmetic::div_mod::lemma_fundamental_div_mod_converse(s5, 2, 0, s5);
    assert(d[5] == s5);
    vstd::arithmetic::div_mod::lemma_fundamental_div_mod(r5, 16);
    vstd::arithmetic::div_mod::lemma_mod_bound(r5, 16);
    let s6 = r5 / 16;
    let r6 = r5 % 16;
    assert(0 <= s6 < 2);
    assert(t == 16 * (2 * (2 * (2 * (2 * (2 * (2 * (q0) + s1) + s2) + s3) + s4) + s5) + s6) + r6);
    vstd::arithmetic::div_mod::lemma_fundamental_div_mod_converse(t, 16, 2 * (2 * (2 * (2 * (2 * (2 * (q0) + s1) + s2) + s3) + s4) + s5) + s6, r6);
    vstd::arithmetic::div_mod::lemma_mod_multiples_vanish(2 * (2 * (2 * (2 * (2 * (q0) + s1) + s2) + s3) + s4) + s5, s6, 2);
    vstd::arithmetic::div_mod::lemma_fundamental_div_mod_converse(s6, 2, 0, s6);
    assert(d[6] == s6);
    vstd::arithmetic::div_mod::lemma_fundamental_div_mod(r6, 8);
    vstd::arithmetic::div_mod::lemma_mod_bound(r6, 8);
    let s7 = r6 / 8;
    let r7 = r6 % 8;
    assert(0 <= s7 < 2);
    assert(t == 8 * (2 * (2 * (2 * (2 * (2 * (2 * (2 * (q0) + s1) + s2) + s3) + s4) + s5) + s6) + s7) + r7);
    vstd::arithmetic::div_mod::lemma_fundamental_div_mod_converse(t, 8, 2 * (2 * (2 * (2 * (2 * (2 * (2 * (q0) + s1) + s2) + s3) + s4) + s5) + s6) + s7, r7);
    vstd::arithmetic::div_mod::lemma_mod_multiples_vanish(2 * (2 * (2 * (2 * (2 * (2 * (q0) + s1) + s2) + s3) + s4) + s5) + s6, s7, 2);
    vstd::arithmetic::div_mod::lemma_fundamental_div_mod_converse(s7, 2, 0, s7);
    assert(d[7] == s7);
    vstd::arithmetic::div_mod::lemma_fundamental_div_mod(r7, 4);
    vstd::arithmetic::div_mod::lemma_mod_bound(r7, 4);
    let s8 = r7 / 4;
    let r8 = r7 % 4;
    assert(0 <= s8 < 2);
    assert(t == 4 * (2 * (2 * (2 * (2 * (2 * (2 * (2 * (2 * (q0) + s1) + s2) + s3) + s4) + s5) + s6) + s7) + s8) + r8);
    vstd::arithmetic::div_mod::lemma_fundamental_div_mod_converse(t, 4, 2 * (2 * (2 * (2 * (2 * (2 * (2 * (2 * (q0) + s1) + s2) + s3) + s4) + s5) + s6) + s7) + s8, r8);
    vstd::arithmetic::div_mod::lemma_mod_multiples_vanish(2 * (2 * (2 * (2 * (2 * (2 * (2 * (q0) + s1) + s2) + s3) + s4) + s5) + s6) + s7, s8, 2);
    vstd::arithmetic::div_mod::lemma_fundamental_div_mod_converse(s8, 2, 0, s8);
    assert(d[8] == s8);
    vstd::arithmetic::div_mod::lemma_fundamental_div_mod(r8, 2);
    vstd::arithmetic::div_mod::lemma_mod_bound(r8, 2);
    let s9 = r8 / 2;
    let r9 = r8 % 2;
    assert(0 <= s9 < 2);
    assert(t == 2 * (2 * (2 * (2 * (2 * (2 * (2 * (2 * (2 * (2 * (q0) + s1) + s2) + s3) + s4) + s5) + s6) + s7) + s8) + s9) + r9);
    vstd::arithmetic::div_mod::lemma_fundamental_div_mod_converse(t, 2, 2 * (2 * (2 * (2 * (2 * (2 * (2 * (2 * (2 * (q0) + s1) + s2) + s3) + s4) + s5) + s6) + s7) + s8) + s9, r9);
    vstd::arithmetic::div_mod::lemma_mod_multiples_vanish(2 * (2 * (2 * (2 * (2 * (2 * (2 * (2 * (q0) + s1) + s2) + s3) + s4) + s5) + s6) + s7) + s8, s9, 2);
    vstd::arithmetic::div_mod::lemma_fundamental_div_mod_converse(s9, 2, 0, s9);
    assert(d[9] == s9);
    vstd::arithmetic::div_mod::lemma_fundamental_div_mod(r9, 1);
    vstd::arithmetic::div_mod::lemma_mod_bound(r9, 1);
    let s10 = r9 / 1;
    let r10 = r9 % 1;
    assert(0 <= s10 < 2);
    assert(t == 1 * (2 * (2 * (2 * (2 * (2 * (2 * (2 * (2 * (2 * (2 * (q0) + s1) + s2) + s3) + s4) + s5) + s6) + s7) + s8) + s9) + s10) + r10);
    vstd::arithmetic::div_mod::lemma_fundamental_div_mod_converse(t, 1, 2 * (2 * (2 * (2 * (2 * (2 * (2 * (2 * (2 * (2 * (q0) + s1) + s2) + s3) + s4) + s5) + s6) + s7) + s8) + s9) + s10, r10);
    vstd::arithmetic::div_mod::lemma_mod_multiples_vanish(2 * (2 * (2 * (2 * (2 * (2 * (2 * (2 * (2 * (q0) + s1) + s2) + s3) + s4) + s5) + s6) + s7) + s8) + s9, s10, 2);
    vstd::arithmetic::div_mod::lemma_fundamental_div_mod_converse(s10, 2, 0, s10);
    assert(d[10] == s10);
    assert(d[0] * 1024 + d[1] * 512 + d[2] * 256 + d[3] * 128 + d[4] * 64 + d[5] * 32 + d[6] * 16 + d[7] * 8 + d[8] * 4 + d[9] * 2 + d[10] == t);
}

/// The flip coordinate of a state with an even flip sum determines all
/// twelve edge orientations.
#[verifier::rlimit(100)]
#[verifier::spinoff_prover]
proof fn lemma_flip_decode_encode(x: CubieSpec)
    requires
        x.ranges_ok(),
        eo_sum(x) % 2 == 0,
    ensures
        x.eo == flip_digits(flip_of(x)),
{
    let t = flip_of(x);
    let d = flip_digits(t);
    assert(t == 1024 * (x.eo[0]) + (x.eo[1] * 512 + x.eo[2] * 256 + x.eo[3] * 128 + x.eo[4] * 64 + x.eo[5] * 32 + x.eo[6] * 16 + x.eo[7] * 8 + x.eo[8] * 4 + x.eo[9] * 2 + x.eo[10]));
    assert(0 <= (x.eo[1] * 512 + x.eo[2] * 256 + x.eo[3] * 128 + x.eo[4] * 64 + x.eo[5] * 32 + x.eo[6] * 16 + x.eo[7] * 8 + x.eo[8] * 4 + x.eo[9] * 2 + x.eo[10]) < 1024);
    vstd::arithmetic::div_mod::lemma_fundamental_div_mod_converse(t, 1024, x.eo[0], x.eo[1] * 512 + x.eo[2] * 256 + x.eo[3] * 128 + x.eo[4] * 64 + x.eo[5] * 32 + x.eo[6] * 16 + x.eo[7] * 8 + x.eo[8] * 4 + x.eo[9] * 2 + x.eo[10]);
    vstd::arithmetic::div_mod::lemma_fundamental_div_mod_converse(x.eo[0], 2, 0, x.eo[0]);
    assert(d[0] == x.eo[0]);
    assert(t == 512 * (x.eo[0] * 2 + x.eo[1]) + (x.eo[2] * 256 + x.eo[3] * 128 + x.eo[4] * 64 + x.eo[5] * 32 + x.eo[6] * 16 + x.eo[7] * 8 + x.eo[8] * 4 + x.eo[9] * 2 + x.eo[10]));
    assert(0 <= (x.eo[2] * 256 + x.eo[3] * 128 + x.eo[4] * 64 + x.eo[5] * 32 + x.eo[6] * 16 + x.eo[7] * 8 + x.eo[8] * 4 + x.eo[9] * 2 + x.eo[10]) < 512);
    vstd::arithmetic::div_mod::lemma_fundamental_div_mod_converse(t, 512, x.eo[0] * 2 + x.eo[1], x.eo[2] * 256 + x.eo[3] * 128 + x.eo[4] * 64 + x.eo[5] * 32 + x.eo[6] * 16 + x.eo[7] * 8 + x.eo[8] * 4 + x.eo[9] * 2 + x.eo[10]);
    assert((x.eo[0] * 2 + x.eo[1]) == 2 * (x.eo[0]) + x.eo[1]);
    vstd::arithmetic::div_mod::lemma_mod_multiples_vanish(x.eo[0], x.eo[1], 2);
    vstd::arithmetic::div_mod::lemma_fundamental_div_mod_converse(x.eo[1], 2, 0, x.eo[1]);
    assert(d[1] == x.eo[1]);
    assert(t == 256 * (x.eo[0] * 4 + x.eo[1] * 2 + x.eo[2]) + (x.eo[3] * 128 + x.eo[4] * 64 + x.eo[5] * 32 + x.eo[6] * 16 + x.eo[7] * 8 + x.eo[8] * 4 + x.eo[9] * 2 + x.eo[10]));
    assert(0 <= (x.eo[3] * 128 + x.eo[4] * 64 + x.eo[5] * 32 + x.eo[6] * 16 + x.eo[7] * 8 + x.eo[8] * 4 + x.eo[9] * 2 + x.eo[10]) < 256);
    vstd::arithmetic::div_mod::lemma_fundamental_div_mod_converse(t, 256, x.eo[0] * 4 + x.eo[1] * 2 + x.eo[2], x.eo[3] * 128 + x.eo[4] * 64 + x.eo[5] * 32 + x.eo[6] * 16 + x.eo[7] * 8 + x.eo[8] * 4 + x.eo[9] * 2 + x.eo[10]);
    assert((x.eo[0] * 4 + x.eo[1] * 2 + x.eo[2]) == 2 * (x.eo[0] * 2 + x.eo[1]) + x.eo[2]);
    vstd::arithmetic::div_mod::lemma_mod_multiples_vanish(x.eo[0] * 2 + x.eo[1], x.eo[2], 2);
    vstd::arithmetic::div_mod::lemma_fundamental_div_mod_converse(x.eo[2], 2, 0, x.eo[2]);
    assert(d[2] == x.eo[2]);
    assert(t == 128 * (x.eo[0] * 8 + x.eo[1] * 4 + x.eo[2] * 2 + x.eo[3]) + (x.eo[4] * 64 + x.eo[5] * 32 + x.eo[6] * 16 + x.eo[7] * 8 + x.eo[8] * 4 + x.eo[9] * 2 + x.eo[10]));
    assert(0 <= (x.eo[4] * 64 + x.eo[5] * 32 + x.eo[6] * 16 + x.eo[7] * 8 + x.eo[8] * 4 + x.eo[9] * 2 + x.eo[10]) < 128);
    vstd::arithmetic::div_mod::lemma_fundamental_div_mod_converse(t, 128, x.eo[0] * 8 + x.eo[1] * 4 + x.eo[2] * 2 + x.eo[3], x.eo[4] * 64 + x.eo[5] * 32 + x.eo[6] * 16 + x.eo[7] * 8 + x.eo[8] * 4 + x.eo[9] * 2 + x.eo[10]);
    assert((x.eo[0] * 8 + x.eo[1] * 4 + x.eo[2] * 2 + x.eo[3]) == 2 * (x.eo[0] * 4 + x.eo[1] * 2 + x.eo[2]) + x.eo[3]);
    vstd::arithmetic::div_mod::lemma_mod_multiples_vanish(x.eo[0] * 4 + x.eo[1] * 2 + x.eo[2], x.eo[3], 2);
    vstd::arithmetic::div_mod::lemma_fundamental_div_mod_converse(x.eo[3], 2, 0, x.eo[3]);
    assert(d[3] == x.eo[3]);
    assert(t == 64 * (x.eo[0] * 16 + x.eo[1] * 8 + x.eo[2] * 4 + x.eo[3] * 2 + x.eo[4]) + (x.eo[5] * 32 + x.eo[6] * 16 + x.eo[7] * 8 + x.eo[8] * 4 + x.eo[9] * 2 + x.eo[10]));
    assert(0 <= (x.eo[5] * 32 + x.eo[6] * 16 + x.eo[7] * 8 + x.eo[8] * 4 + x.eo[9] * 2 + x.eo[10]) < 64);
    vstd::arithmetic::div_mod::lemma_fundamental_div_mod_converse(t, 64, x.eo[0] * 16 + x.eo[1] * 8 + x.eo[2] * 4 + x.eo[3] * 2 + x.eo[4], x.eo[5] * 32 + x.eo[6] * 16 + x.eo[7] * 8 + x.eo[8] * 4 + x.eo[9] * 2 + x.eo[10]);
    assert((x.eo[0] * 16 + x.eo[1] * 8 + x.eo[2] * 4 + x.eo[3] * 2 + x.eo[4]) == 2 * (x.eo[0] * 8 + x.eo[1] * 4 + x.eo[2] * 2 + x.eo[3]) + x.eo[4]);
    vstd::arithmetic::div_mod::lemma_mod_multiples_vanish(x.eo[0] * 8 + x.eo[1] * 4 + x.eo[2] * 2 + x.eo[3], x.eo[4], 2);
    vstd::arithmetic::div_mod::lemma_fundamental_div_mod_converse(x.eo[4], 2, 0, x.eo[4]);
    assert(d[4] == x.eo[4]);
    assert(t == 32 * (x.eo[0] * 32 + x.eo[1] * 16 + x.eo[2] * 8 + x.eo[3] * 4 + x.eo[4] * 2 + x.eo[5]) + (x.eo[6] * 16 + x.eo[7] * 8 + x.eo[8] * 4 + x.eo[9] * 2 + x.eo[10]));
    assert(0 <= (x.eo[6] * 16 + x.eo[7] * 8 + x.eo[8] * 4 + x.eo[9] * 2 + x.eo[10]) < 32);
    vstd::arithmetic::div_mod::lemma_fundamental_div_mod_converse(t, 32, x.eo[0] * 32 + x.eo[1] * 16 + x.eo[2] * 8 + x.eo[3] * 4 + x.eo[4] * 2 + x.eo[5], x.eo[6] * 16 + x.eo[7] * 8 + x.eo[8] * 4 + x.eo[9] * 2 + x.eo[10]);
    assert((x.eo[0] * 32 + x.eo[1] * 16 + x.eo[2] * 8 + x.eo[3] * 4 + x.eo[4] * 2 + x.eo[5]) == 2 * (x.eo[0] * 16 + x.eo[1] * 8 + x.eo[2] * 4 + x.eo[3] * 2 + x.eo[4]) + x.eo[5]);
    vstd::arithmetic::div_mod::lemma_mod_multiples_vanish(x.eo[0] * 16 + x.eo[1] * 8 + x.eo[2] * 4 + x.eo[3] * 2 + x.eo[4], x.eo[5], 2);
    vstd::arithmetic::div_mod::lemma_fundamental_div_mod_converse(x.eo[5], 2, 0, x.eo[5]);
    assert(d[5] == x.eo[5]);
    assert(t == 16 * (x.eo[0] * 64 + x.eo[1] * 32 + x.eo[2] * 16 + x.eo[3] * 8 + x.eo[4] * 4 + x.eo[5] * 2 + x.eo[6]) + (x.eo[7] * 8 + x.eo[8] * 4 + x.eo[9] * 2 + x.eo[10]));
    assert(0 <= (x.eo[7] * 8 + x.eo[8] * 4 + x.eo[9] * 2 + x.eo[10]) < 16);
    vstd::arithmetic::div_mod::lemma_fundamental_div_mod_converse(t, 16, x.eo[0] * 64 + x.eo[1] * 32 + x.eo[2] * 16 + x.eo[3] * 8 + x.eo[4] * 4 + x.eo[5] * 2 + x.eo[6], x.eo[7] * 8 + x.eo[8] * 4 + x.eo[9] * 2 + x.eo[10]);
    assert((x.eo[0] * 64 + x.eo[1] * 32 + x.eo[2] * 16 + x.eo[3] * 8 + x.eo[4] * 4 + x.eo[5] * 2 + x.eo[6]) == 2 * (x.eo[0] * 32 + x.eo[1] * 16 + x.eo[2] * 8 + x.eo[3] * 4 + x.eo[4] * 2 + x.eo[5]) + x.eo[6]);
    vstd::arithmetic::div_mod::lemma_mod_multiples_vanish(x.eo[0] * 32 + x.eo[1] * 16 + x.eo[2] * 8 + x.eo[3] * 4 + x.eo[4] * 2 + x.eo[5], x.eo[6], 2);
    vstd::arithmetic::div_mod::lemma_fundamental_div_mod_converse(x.eo[6], 2, 0, x.eo[6]);
    assert(d[6] == x.eo[6]);
    assert(t == 8 * (x.eo[0] * 128 + x.eo[1] * 64 + x.eo[2] * 32 + x.eo[3] * 16 + x.eo[4] * 8 + x.eo[5] * 4 + x.eo[6] * 2 + x.eo[7]) + (x.eo[8] * 4 + x.eo[9] * 2 + x.eo[10]));
    assert(0 <= (x.eo[8] * 4 + x.eo[9] * 2 + x.eo[10]) < 8);
    vstd::arithmetic::div_mod::lemma_fundamental_div_mod_converse(t, 8, x.eo[0] * 128 + x.eo[1] * 64 + x.eo[2] * 32 + x.eo[3] * 16 + x.eo[4] * 8 + x.eo[5] * 4 + x.eo[6] * 2 + x.eo[7], x.eo[8] * 4 + x.eo[9] * 2 + x.eo[10]);
    assert((x.eo[0] * 128 + x.eo[1] * 64 + x.eo[2] * 32 + x.eo[3] * 16 + x.eo[4] * 8 + x.eo[5] * 4 + x.eo[6] * 2 + x.eo[7]) == 2 * (x.eo[0] * 64 + x.eo[1] * 32 + x.eo[2] * 16 + x.eo[3] * 8 + x.eo[4] * 4 + x.eo[5] * 2 + x.eo[6]) + x.eo[7]);
    vstd::arithmetic::div_mod::lemma_mod_multiples_vanish(x.eo[0] * 64 + x.eo[1] * 32 + x.eo[2] * 16 + x.eo[3] * 8 + x.eo[4] * 4 + x.eo[5] * 2 + x.eo[6], x.eo[7], 2);
    vstd::arithmetic::div_mod::lemma_fundamental_div_mod_converse(x.eo[7], 2, 0, x.eo[7]);
    assert(d[7] == x.eo[7]);
    assert(t == 4 * (x.eo[0] * 256 + x.eo[1] * 128 + x.eo[2] * 64 + x.eo[3] * 32 + x.eo[4] * 16 + x.eo[5] * 8 + x.eo[6] * 4 + x.eo[7] * 2 + x.eo[8]) + (x.eo[9] * 2 + x.eo[10]));
    assert(0 <= (x.eo[9] * 2 + x.eo[10]) < 4);
    vstd::arithmetic::div_mod::lemma_fundamental_div_mod_converse(t, 4, x.eo[0] * 256 + x.eo[1] * 128 + x.eo[2] * 64 + x.eo[3] * 32 + x.eo[4] * 16 + x.eo[5] * 8 + x.eo[6] * 4 + x.eo[7] * 2 + x.eo[8], x.eo[9] * 2 + x.eo[10]);
    assert((x.eo[0] * 256 + x.eo[1] * 128 + x.eo[2] * 64 + x.eo[3] * 32 + x.eo[4] * 16 + x.eo[5] * 8 + x.eo[6] * 4 + x.eo[7] * 2 + x.eo[8]) == 2 * (x.eo[0] * 128 + x.eo[1] * 64 + x.eo[2] * 32 + x.eo[3] * 16 + x.eo[4] * 8 + x.eo[5] * 4 + x.eo[6] * 2 + x.eo[7]) + x.eo[8]);
    vstd::arithmetic::div_mod::lemma_mod_multiples_vanish(x.eo[0] * 128 + x.eo[1] * 64 + x.eo[2] * 32 + x.eo[3] * 16 + x.eo[4] * 8 + x.eo[5] * 4 + x.eo[6] * 2 + x.eo[7], x.eo[8], 2);
    vstd::arithmetic::div_mod::lemma_fundamental_div_mod_converse(x.eo[8], 2, 0, x.eo[8]);
    assert(d[8] == x.eo[8]);
    assert(t == 2 * (x.eo[0] * 512 + x.eo[1] * 256 + x.eo[2] * 128 + x.eo[3] * 64 + x.eo[4] * 32 + x.eo[5] * 16 + x.eo[6] * 8 + x.eo[7] * 4 + x.eo[8] * 2 + x.eo[9]) + (x.eo[10]));
    assert(0 <= (x.eo[10]) < 2);
    vstd::arithmetic::div_mod::lemma_fundamental_div_mod_converse(t, 2, x.eo[0] * 512 + x.eo[1] * 256 + x.eo[2] * 128 + x.eo[3] * 64 + x.eo[4] * 32 + x.eo[5] * 16 + x.eo[6] * 8 + x.eo[7] * 4 + x.eo[8] * 2 + x.eo[9], x.eo[10]);
    assert((x.eo[0] * 512 + x.eo[1] * 256 + x.eo[2] * 128 + x.eo[3] * 64 + x.eo[4] * 32 + x.eo[5] * 16 + x.eo[6] * 8 + x.eo[7] * 4 + x.eo[8] * 2 + x.eo[9]) == 2 * (x.eo[0] * 256 + x.eo[1] * 128 + x.eo[2] * 64 + x.eo[3] * 32 + x.eo[4] * 16 + x.eo[5] * 8 + x.eo[6] * 4 + x.eo[7] * 2 + x.eo[8]) + x.eo[9]);
    vstd::arithmetic::div_mod::lemma_mod_multiples_vanish(x.eo[0] * 256 + x.eo[1] * 128 + x.eo[2] * 64 + x.eo[3] * 32 + x.eo[4] * 16 + x.eo[5] * 8 + x.eo[6] * 4 + x.eo[7] * 2 + x.eo[8], x.eo[9], 2);
    vstd::arithmetic::div_mod::lemma_fundamental_div_mod_converse(x.eo[9], 2, 0, x.eo[9]);
    assert(d[9] == x.eo[9]);
    assert(t == 1 * (x.eo[0] * 1024 + x.eo[1] * 512 + x.eo[2] * 256 + x.eo[3] * 128 + x.eo[4] * 64 + x.eo[5] * 32 + x.eo[6] * 16 + x.eo[7] * 8 + x.eo[8] * 4 + x.eo[9] * 2 + x.eo[10]) + (0));
    assert(0 <= (0) < 1);
    vstd::arithmetic::div_mod::lemma_fundamental_div_mod_converse(t, 1, x.eo[0] * 1024 + x.eo[1] * 512 + x.eo[2] * 256 + x.eo[3] * 128 + x.eo[4] * 64 + x.eo[5] * 32 + x.eo[6] * 16 + x.eo[7] * 8 + x.eo[8] * 4 + x.eo[9] * 2 + x.eo[10], 0);
    assert((x.eo[0] * 1024 + x.eo[1] * 512 + x.eo[2] * 256 + x.eo[3] * 128 + x.eo[4] * 64 + x.eo[5] * 32 + x.eo[6] * 16 + x.eo[7] * 8 + x.eo[8] * 4 + x.eo[9] * 2 + x.eo[10]) == 2 * (x.eo[0] * 512 + x.eo[1] * 256 + x.eo[2] * 128 + x.eo[3] * 64 + x.eo[4] * 32 + x.eo[5] * 16 + x.eo[6] * 8 + x.eo[7] * 4 + x.eo[8] * 2 + x.eo[9]) + x.eo[10]);
    vstd::arithmetic::div_mod::lemma_mod_multiples_vanish(x.eo[0] * 512 + x.eo[1] * 256 + x.eo[2] * 128 + x.eo[3] * 64 + x.eo[4] * 32 + x.eo[5] * 16 + x.eo[6] * 8 + x.eo[7] * 4 + x.eo[8] * 2 + x.eo[9], x.eo[10], 2);
    vstd::arithmetic::div_mod::lemma_fundamental_div_mod_converse(x.eo[10], 2, 0, x.eo[10]);
    assert(d[10] == x.eo[10]);
    let s11 = x.eo[0] + x.eo[1] + x.eo[2] + x.eo[3] + x.eo[4] + x.eo[5] + x.eo[6] + x.eo[7]
        + x.eo[8] + x.eo[9] + x.eo[10];
    vstd::arithmetic::div_mod::lemma_fundamental_div_mod(s11, 2);
    vstd::arithmetic::div_mod::lemma_mod_bound(s11, 2);
    assert(eo_sum(x) == s11 + x.eo[11]);
    assert((s11 % 2 + x.eo[11]) % 2 == 0) by {
        vstd::arithmetic::div_mod::lemma_mod_multiples_vanish(s11 / 2, s11 % 2 + x.eo[11], 2);
    }
    assert(x.eo[11] == (2 - s11 % 2) % 2) by {
        let z = s11 % 2;
        assert(0 <= z < 2);
        assert((z + x.eo[11]) % 2 == 0);
        if z == 0 {
            vstd::arithmetic::div_mod::lemma_fundamental_div_mod_converse(x.eo[11], 2, 0, x.eo[11]);
            assert((2 - 0) % 2 == 0) by {
                vstd::arithmetic::div_mod::lemma_fundamental_div_mod_converse(2, 2, 1, 0);
            }
        } else {
            assert(0 < z + x.eo[11] < 4);
            if z + x.eo[11] < 2 {
                vstd::arithmetic::div_mod::lemma_fundamental_div_mod_converse(
                    z + x.eo[11],
                    2,
                    0,
                    z + x.eo[11],
                );
            } else {
                vstd::arithmetic::div_mod::lemma_fundamental_div_mod_converse(
                    z + x.eo[11],
                    2,
                    1,
                    z + x.eo[11] - 2,
                );
            }
            assert(x.eo[11] == 2 - z);
            vstd::arithmetic::div_mod::lemma_fundamental_div_mod_converse(2 - z, 2, 0, 2 - z);
        }
    }
    assert(d[11] == x.eo[11]);
    assert(x.eo =~= d);
}

/// Corner orientations after face turns depend only on the corner
/// orientations before them: the generator indexes them by its own fixed
/// slot map.
proof fn lemma_axis_co_depends(a1: CubieSpec, a2: CubieSpec, axis: int, times: nat)
    requires
        a1.co.len() == 8,
        a2.co.len() == 8,
        a1.co == a2.co,
    ensures
        apply_axis(a1, axis, times).co == apply_axis(a2, axis, times).co,
    decreases times,
{
    if times > 0 {
        lemma_axis_co_depends(a1, a2, axis, (times - 1) as nat);
        let y1 = apply_axis(a1, axis, (times - 1) as nat);
        let y2 = apply_axis(a2, axis, (times - 1) as nat);
        let g = generator_spec(axis);
        assert(CubieSpec::mult(y1, g).co =~= CubieSpec::mult(y2, g).co);
    }
}

/// Edge orientations after face turns depend only on the edge
/// orientations before them.
proof fn lemma_axis_eo_depends(a1: CubieSpec, a2: CubieSpec, axis: int, times: nat)
    requires
        a1.eo.len() == 12,
        a2.eo.len() == 12,
        a1.eo == a2.eo,
    ensures
        apply_axis(a1, axis, times).eo == apply_axis(a2, axis, times).eo,
    decreases times,
{
    if times > 0 {
        lemma_axis_eo_depends(a1, a2, axis, (times - 1) as nat);
        let y1 = apply_axis(a1, axis, (times - 1) as nat);
        let y2 = apply_axis(a2, axis, (times - 1) as nat);
        let g = generator_spec(axis);
        assert(CubieSpec::mult(y1, g).eo =~= CubieSpec::mult(y2, g).eo);
    }
}

/// The twist move table in its strong reading: its entry at any balanced
/// state's twist coordinate is the twist of that very state after the
/// move, whatever the rest of the state holds.
pub proof fn lemma_twist_table_any_state(t: Tables, x: CubieSpec, m: int)
    requires
        t.semantics(),
        x.ranges_ok(),
        co_sum(x) % 3 == 0,
        0 <= m < 18,
    ensures
        tbl(t.twist_move@, twist_of(x), m) == twist_of(apply_move(x, m)),
{
    let c = twist_of(x);
    assert(0 <= c < 2187);
    lemma_twist_decode_encode(x);
    assert(twist_state(c).co == x.co);
    lemma_axis_co_depends(twist_state(c), x, move_axis(m), move_power(m) as nat);
    assert(apply_move(twist_state(c), m).co == apply_move(x, m).co);
    assert(tbl(t.twist_move@, c, m) == twist_of(apply_move(twist_state(c), m)));
}

/// The flip move table in its strong reading: its entry at any balanced
/// state's flip coordinate is the flip of that very state after the move.
pub proof fn lemma_flip_table_any_state(t: Tables, x: CubieSpec, m: int)
    requires
        t.semantics(),
        x.ranges_ok(),
        eo_sum(x) % 2 == 0,
        0 <= m < 18,
    ensures
        tbl(t.flip_move@, flip_of(x), m) == flip_of(apply_move(x, m)),
{
    let c = flip_of(x);
    assert(0 <= c < 2048);
    lemma_flip_decode_encode(x);
    assert(flip_state(c).eo == x.eo);
    lemma_axis_eo_depends(flip_state(c), x, move_axis(m), move_power(m) as nat);
    assert(apply_move(flip_state(c), m).eo == apply_move(x, m).eo);
    assert(tbl(t.flip_move@, c, m) == flip_of(apply_move(flip_state(c), m)));
}

/// The canonical twist state is a physical cube: only its corner
/// orientations differ from solved, and their sum balances by the fixed
/// last digit.
proof fn lemma_twist_state_invariant(c: int)
    requires
        0 <= c < 2187,
    ensures
        physical_invariant(twist_state(c)),
{
    let x = twist_state(c);
    assert(x.ranges_ok());
    let d = twist_digits(c);
    let s7 = d[0] + d[1] + d[2] + d[3] + d[4] + d[5] + d[6];
    vstd::arithmetic::div_mod::lemma_fundamental_div_mod(s7, 3);
    vstd::arithmetic::div_mod::lemma_mod_bound(s7, 3);
    let z = s7 % 3;
    assert(d[7] == (3 - z) % 3);
    assert(co_sum(x) == s7 + (3 - z) % 3);
    if z == 0 {
        assert((3 - 0) % 3 == 0) by {
            vstd::arithmetic::div_mod::lemma_fundamental_div_mod_converse(3, 3, 1, 0);
        }
        vstd::arithmetic::div_mod::lemma_mod_multiples_vanish(s7 / 3, 0, 3);
    } else {
        assert((3 - z) % 3 == 3 - z) by {
            vstd::arithmetic::div_mod::lemma_fundamental_div_mod_converse(3 - z, 3, 0, 3 - z);
        }
        assert(co_sum(x) == 3 * (s7 / 3 + 1));
        vstd::arithmetic::div_mod::lemma_mod_multiples_vanish(s7 / 3 + 1, 0, 3);
    }
    assert(eo_sum(x) == 0);
    lemma_solved_invariant();
    assert(corner_parity_of(x) == corner_parity_of(CubieSpec::solved()));
    assert(edge_parity_of(x) == edge_parity_of(CubieSpec::solved()));
}

/// The canonical flip state is a physical cube: only its edge
/// orientations differ from solved, and their sum balances.
proof fn lemma_flip_state_invariant(f: int)
    requires
        0 <= f < 2048,
    ensures
        physical_invariant(flip_state(f)),
{
    let x = flip_state(f);
    assert(x.ranges_ok());
    let d = flip_digits(f);
    let s11 = d[0] + d[1] + d[2] + d[3] + d[4] + d[5] + d[6] + d[7] + d[8] + d[9] + d[10];
    vstd::arithmetic::div_mod::lemma_fundamental_div_mod(s11, 2);
    vstd::arithmetic::div_mod::lemma_mod_bound(s11, 2);
    let z = s11 % 2;
    assert(d[11] == (2 - z) % 2);
    assert(eo_sum(x) == s11 + (2 - z) % 2);
    if z == 0 {
        assert((2 - 0) % 2 == 0) by {
            vstd::arithmetic::div_mod::lemma_fundamental_div_mod_converse(2, 2, 1, 0);
        }
        vstd::arithmetic::div_mod::lemma_mod_multiples_vanish(s11 / 2, 0, 2);
    } else {
        assert((2 - z) % 2 == 2 - z) by {
            vstd::arithmetic::div_mod::lemma_fundamental_div_mod_converse(2 - z, 2, 0, 2 - z);
        }
        assert(eo_sum(x) == 2 * (s11 / 2 + 1));
        vstd::arithmetic::div_mod::lemma_mod_multiples_vanish(s11 / 2 + 1, 0, 2);
    }
    assert(co_sum(x) == 0);
    lemma_solved_invariant();
    assert(corner_parity_of(x) == corner_parity_of(CubieSpec::solved()));
    assert(edge_parity_of(x) == edge_parity_of(CubieSpec::solved()));
}

/// A clockwise quarter turn stepped four times through the twist table
/// returns every twist coordinate to itself.
pub proof fn lemma_twist_table_four_times(t: Tables, c: int, m: int)
    requires
        t.semantics(),
        0 <= c < 2187,
        0 <= m < 18,
        move_power(m) == 1,
    ensures
        ({
            let c1 = tbl(t.twist_move@, c, m);
            let c2 = tbl(t.twist_move@, c1, m);
            let c3 = tbl(t.twist_move@, c2, m);
            tbl(t.twist_move@, c3, m) == c
        }),
{
    let axis = move_axis(m);
    let x0 = twist_state(c);
    lemma_twist_state_invariant(c);
    lemma_twist_encode_decode(c);
    let x1 = apply_move(x0, m);
    let x2 = apply_move(x1, m);
    let x3 = apply_move(x2, m);
    let x4 = apply_move(x3, m);
    lemma_move_preserves_invariant(x0, m);
    lemma_move_preserves_invariant(x1, m);
    lemma_move_preserves_invariant(x2, m);
    lemma_move_preserves_invariant(x3, m);
    lemma_twist_table_any_state(t, x0, m);
    lemma_twist_table_any_state(t, x1, m);
    lemma_twist_table_any_state(t, x2, m);
    lemma_twist_table_any_state(t, x3, m);
    assert(x1 == apply_axis(x0, axis, 1));
    lemma_axis_add(x0, axis, 1, 1);
    assert(x2 == apply_axis(x0, axis, 2));
    lemma_axis_add(x0, axis, 2, 1);
    assert(x3 == apply_axis(x0, axis, 3));
    lemma_axis_add(x0, axis, 3, 1);
    assert(x4 == apply_axis(x0, axis, 4));
    lemma_axis_four_times(x0, axis);
    assert(twist_of(x4) == c);
}

/// A clockwise quarter turn stepped four times through the flip table
/// returns every flip coordinate to itself.
pub proof fn lemma_flip_table_four_times(t: Tables, c: int, m: int)
    requires
        t.semantics(),
        0 <= c < 2048,
        0 <= m < 18,
        move_power(m) == 1,
    ensures
        ({
            let c1 = tbl(t.flip_move@, c, m);
            let c2 = tbl(t.flip_move@, c1, m);
            let c3 = tbl(t.flip_move@, c2, m);
            tbl(t.flip_move@, c3, m) == c
        }),
{
    let axis = move_axis(m);
    let x0 = flip_state(c);
    lemma_flip_state_invariant(c);
    lemma_flip_encode_decode(c);
    let x1 = apply_move(x0, m);
    let x2 = apply_move(x1, m);
    let x3 = apply_move(x2, m);
    let x4 = apply_move(x3, m);
    lemma_move_preserves_invariant(x0, m);
    lemma_move_preserves_invariant(x1, m);
    lemma_move_preserves_invariant(x2, m);
    lemma_move_preserves_invariant(x3, m);
    lemma_flip_table_any_state(t, x0, m);
    lemma_flip_table_any_state(t, x1, m);
    lemma_flip_table_any_state(t, x2, m);
    lemma_flip_table_any_state(t, x3, m);
    assert(x1 == apply_axis(x0, axis, 1));
    lemma_axis_add(x0, axis, 1, 1);
    assert(x2 == apply_axis(x0, axis, 2));
    lemma_axis_add(x0, axis, 2, 1);
    assert(x3 == apply_axis(x0, axis, 3));
    lemma_axis_add(x0, axis, 3, 1);
    assert(x4 == apply_axis(x0, axis, 4));
    lemma_axis_four_times(x0, axis);
    assert(flip_of(x4) == c);
}

/// Applying a move and then its inverse returns every state exactly.
pub proof fn lemma_move_round_trip(x: CubieSpec, m: int)
    requires
        x.ranges_ok(),
        0 <= m < 18,
    ensures
        apply_move(apply_move(x, m), inverse_move(m)) == x,
{
    let axis = move_axis(m);
    let p = move_power(m) as nat;
    assert(move_axis(inverse_move(m)) == axis);
    assert(move_power(inverse_move(m)) == 4 - p);
    lemma_axis_add(x, axis, p, (4 - p) as nat);
    lemma_axis_four_times(x, axis);
}

} // verus!
