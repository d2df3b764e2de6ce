//! The escape-time count of one point: how many steps its orbit takes to
//! leave the escape radius, up to a cap.
//!
//! The arithmetic of the plane is the caller's: a test that says whether a
//! point of the orbit has escaped, and a step that leads from one point of
//! the orbit to the next. What is decided here is the counting: the orbit is
//! tested before each step, the first point found escaped ends the count,
//! and an orbit that has not escaped after `iteration_max` steps has the
//! count `iteration_max`.

use vstd::prelude::*;

verus! {

/// `orbit` starts at `start`, and `advance` leads from each of its points to
/// the next.
pub open spec fn is_orbit<Z, S: Fn(Z) -> Z>(orbit: Seq<Z>, start: Z, advance: S) -> bool {
    &&& orbit.len() > 0
    &&& orbit[0] == start
    &&& forall|k: int|
        0 <= k < orbit.len() - 1 ==> call_ensures(advance, (orbit[k],), #[trigger] orbit[k + 1])
}

/// `orbit` shows that the escape-time count is `count`: it has `count`
/// steps, none of its points before the last was found escaped, and its last
/// point was found escaped unless the cap was reached first.
pub open spec fn is_escape_witness<Z, E: Fn(Z) -> bool, S: Fn(Z) -> Z>(
    orbit: Seq<Z>,
    count: usize,
    start: Z,
    iteration_max: usize,
    escaped: E,
    advance: S,
) -> bool {
    &&& is_orbit(orbit, start, advance)
    &&& orbit.len() == count + 1
    &&& forall|k: int| 0 <= k < count ==> call_ensures(escaped, (#[trigger] orbit[k],), false)
    &&& count < iteration_max ==> call_ensures(escaped, (orbit[count as int],), true)
}

/// `count` is an escape-time count of the orbit from `start` under the cap
/// `iteration_max`.
pub open spec fn is_escape_count<Z, E: Fn(Z) -> bool, S: Fn(Z) -> Z>(
    count: usize,
    start: Z,
    iteration_max: usize,
    escaped: E,
    advance: S,
) -> bool {
    &&& count <= iteration_max
    &&& exists|orbit: Seq<Z>|
        is_escape_witness(orbit, count, start, iteration_max, escaped, advance)
}

/// `escaped` has one answer for each point.
pub open spec fn test_is_determined<Z, E: Fn(Z) -> bool>(escaped: E) -> bool {
    forall|z: Z, a: bool, b: bool|
        call_ensures(escaped, (z,), a) && call_ensures(escaped, (z,), b) ==> a == b
}

/// `advance` leads from each point to one next point.
pub open spec fn step_is_determined<Z, S: Fn(Z) -> Z>(advance: S) -> bool {
    forall|z: Z, a: Z, b: Z|
        call_ensures(advance, (z,), a) && call_ensures(advance, (z,), b) ==> a == b
}

/// Two orbits from the same start under a step that is determined agree as
/// far as both reach.
proof fn lemma_orbits_agree<Z, S: Fn(Z) -> Z>(
    first: Seq<Z>,
    second: Seq<Z>,
    start: Z,
    advance: S,
    k: int,
)
    requires
        is_orbit(first, start, advance),
        is_orbit(second, start, advance),
        step_is_determined(advance),
        0 <= k < first.len(),
        k < second.len(),
    ensures
        first[k] == second[k],
    decreases k,
{
    if k > 0 {
        lemma_orbits_agree(first, second, start, advance, k - 1);
        assert(call_ensures(advance, (first[k - 1],), first[k - 1 + 1]));
        assert(call_ensures(advance, (second[k - 1],), second[k - 1 + 1]));
    }
}

/// The count of a point is the same however often it is computed: where
/// the test and the step are determined, a start and a cap have one
/// escape-time count.
pub proof fn lemma_escape_count_is_determined<Z, E: Fn(Z) -> bool, S: Fn(Z) -> Z>(
    first: usize,
    second: usize,
    start: Z,
    iteration_max: usize,
    escaped: E,
    advance: S,
)
    requires
        is_escape_count(first, start, iteration_max, escaped, advance),
        is_escape_count(second, start, iteration_max, escaped, advance),
        test_is_determined(escaped),
        step_is_determined(advance),
    ensures
        first == second,
{
    let a = choose|orbit: Seq<Z>|
        is_escape_witness(orbit, first, start, iteration_max, escaped, advance);
    let b = choose|orbit: Seq<Z>|
        is_escape_witness(orbit, second, start, iteration_max, escaped, advance);
    if first < second {
        lemma_orbits_agree(a, b, start, advance, first as int);
        assert(call_ensures(escaped, (a[first as int],), true));
        assert(call_ensures(escaped, (b[first as int],), false));
    } else if second < first {
        lemma_orbits_agree(a, b, start, advance, second as int);
        assert(call_ensures(escaped, (b[second as int],), true));
        assert(call_ensures(escaped, (a[second as int],), false));
    }
}

/// Counts the steps of the orbit from `start` until `escaped` finds a point
/// of it escaped. The orbit is tested before each step, so a start that has
/// escaped has the count 0. After `iteration_max` steps without escape the
/// count is `iteration_max`, whatever the point then reached: under a cap of
/// 0 nothing is tested and nothing is stepped.
pub fn escape_iterations<Z: Copy, E: Fn(Z) -> bool, S: Fn(Z) -> Z>(
    start: Z,
    iteration_max: usize,
    escaped: E,
    advance: S,
) -> (count: usize)
    requires
        forall|z: Z| call_requires(escaped, (z,)),
        forall|z: Z| call_requires(advance, (z,)),
    ensures
        count <= iteration_max,
        is_escape_count(count, start, iteration_max, escaped, advance),
{
    let mut z = start;
    let mut n: usize = 0;
    let ghost mut orbit: Seq<Z> = seq![start];
    while n < iteration_max
        invariant
            n <= iteration_max,
            forall|z: Z| call_requires(escaped, (z,)),
            forall|z: Z| call_requires(advance, (z,)),
            is_orbit(orbit, start, advance),
            orbit.len() == n + 1,
            orbit[n as int] == z,
            forall|k: int| 0 <= k < n ==> call_ensures(escaped, (#[trigger] orbit[k],), false),
        decreases iteration_max - n,
    {
        if escaped(z) {
            assert(is_escape_witness(orbit, n, start, iteration_max, escaped, advance));
            return n;
        }
        let next = advance(z);
        proof {
            let ghost longer = orbit.push(next);
            assert forall|k: int| 0 <= k < longer.len() - 1 implies call_ensures(
                advance,
                (longer[k],),
                #[trigger] longer[k + 1],
            ) by {
                if k < orbit.len() - 1 {
                    assert(longer[k + 1] == orbit[k + 1]);
                }
            }
            assert forall|k: int| 0 <= k < n + 1 implies call_ensures(
                escaped,
                (#[trigger] longer[k],),
                false,
            ) by {
                if k < n {
                    assert(longer[k] == orbit[k]);
                }
            }
            orbit = longer;
        }
        z = next;
        n += 1;
    }
    assert(is_escape_witness(orbit, n, start, iteration_max, escaped, advance));
    n
}

} // verus!
