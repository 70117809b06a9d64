use vstd::prelude::*;

verus! {

/// `zs` is a run of the orbit that starts at `start`, each state being the
/// result of `step` on the one before it.
pub open spec fn is_orbit<T, S: Fn(T) -> T>(step: S, start: T, zs: Seq<T>) -> bool {
    &&& zs.len() >= 1
    &&& zs[0] == start
    &&& forall|k: int| 0 <= k < zs.len() - 1 ==> #[trigger] step.ensures((zs[k],), zs[k + 1])
}

/// `n` is the escape-time count of `start` under a budget of `max_iter`
/// steps: the states `0 .. n` of its orbit are not escaped, and unless the
/// whole budget was used, state `n` is.
pub open spec fn is_escape_count<T, E: Fn(T) -> bool, S: Fn(T) -> T>(
    escaped: E,
    step: S,
    start: T,
    max_iter: nat,
    n: nat,
) -> bool {
    &&& n <= max_iter
    &&& exists|zs: Seq<T>|
        #[trigger] is_orbit(step, start, zs) && zs.len() == n + 1 && (forall|k: int|
            0 <= k < n ==> #[trigger] escaped.ensures((zs[k],), false)) && (n < max_iter
            ==> escaped.ensures((zs[n as int],), true))
}

/// `step` gives one result for each state.
pub open spec fn is_functional_step<T, S: Fn(T) -> T>(step: S) -> bool {
    forall|z: T, a: T, b: T| #[trigger]
        step.ensures((z,), a) && #[trigger] step.ensures((z,), b) ==> a == b
}

/// `escaped` gives one answer for each state.
pub open spec fn is_functional_test<T, E: Fn(T) -> bool>(escaped: E) -> bool {
    forall|z: T| !(#[trigger] escaped.ensures((z,), true) && escaped.ensures((z,), false))
}

/// Escape-time evaluator. Starting from `start`, tests the current state with
/// `escaped` and advances it with `step`, at most `max_iter` times; returns the
/// index of the first escaped state, or `max_iter` when none of the tested
/// states escaped.
pub fn escape_time<T: Copy, E: Fn(T) -> bool, S: Fn(T) -> T>(
    start: T,
    max_iter: u32,
    escaped: E,
    step: S,
) -> (n: u32)
    requires
        forall|z: T| #[trigger] escaped.requires((z,)),
        forall|z: T| #[trigger] step.requires((z,)),
    ensures
        n <= max_iter,
        is_escape_count(escaped, step, start, max_iter as nat, n as nat),
{
    let mut z = start;
    let ghost mut zs: Seq<T> = seq![start];
    let mut n: u32 = 0;
    while n < max_iter
        invariant
            n <= max_iter,
            is_orbit(step, start, zs),
            zs.len() == n + 1,
            zs[n as int] == z,
            forall|k: int| 0 <= k < n ==> #[trigger] escaped.ensures((zs[k],), false),
            forall|z: T| #[trigger] escaped.requires((z,)),
            forall|z: T| #[trigger] step.requires((z,)),
        decreases max_iter - n,
    {
        if escaped(z) {
            assert(is_orbit(step, start, zs));
            return n;
        }
        let next = step(z);
        proof {
            let old_zs = zs;
            zs = zs.push(next);
            assert forall|k: int| 0 <= k < zs.len() - 1 implies #[trigger] step.ensures(
                (zs[k],),
                zs[k + 1],
            ) by {
                if k < old_zs.len() - 1 {
                    assert(step.ensures((old_zs[k],), old_zs[k + 1]));
                }
            }
            assert forall|k: int| 0 <= k < n + 1 implies #[trigger] escaped.ensures(
                (zs[k],),
                false,
            ) by {
                if k < n {
                    assert(escaped.ensures((old_zs[k],), false));
                }
            }
        }
        z = next;
        n = n + 1;
    }
    assert(is_orbit(step, start, zs));
    n
}

/// Two runs of the same orbit under a step function with one result per
/// state agree wherever both are defined.
proof fn lemma_orbits_agree<T, S: Fn(T) -> T>(
    step: S,
    start: T,
    zs1: Seq<T>,
    zs2: Seq<T>,
    k: int,
)
    requires
        is_functional_step(step),
        is_orbit(step, start, zs1),
        is_orbit(step, start, zs2),
        0 <= k < zs1.len(),
        k < zs2.len(),
    ensures
        zs1[k] == zs2[k],
    decreases k,
{
    if k > 0 {
        lemma_orbits_agree(step, start, zs1, zs2, k - 1);
        let j = k - 1;
        assert(step.ensures((zs1[j],), zs1[j + 1]));
        assert(step.ensures((zs2[j],), zs2[j + 1]));
    }
}

/// The escape-time count is a function of its inputs: where `escaped` and
/// `step` give one result per state, a starting point and a budget have a
/// single escape count.
pub proof fn lemma_escape_count_unique<T, E: Fn(T) -> bool, S: Fn(T) -> T>(
    escaped: E,
    step: S,
    start: T,
    max_iter: nat,
    n1: nat,
    n2: nat,
)
    requires
        is_functional_test(escaped),
        is_functional_step(step),
        is_escape_count(escaped, step, start, max_iter, n1),
        is_escape_count(escaped, step, start, max_iter, n2),
    ensures
        n1 == n2,
{
    let zs1 = choose|zs: Seq<T>|
        #[trigger] is_orbit(step, start, zs) && zs.len() == n1 + 1 && (forall|k: int|
            0 <= k < n1 ==> #[trigger] escaped.ensures((zs[k],), false)) && (n1 < max_iter
            ==> escaped.ensures((zs[n1 as int],), true));
    let zs2 = choose|zs: Seq<T>|
        #[trigger] is_orbit(step, start, zs) && zs.len() == n2 + 1 && (forall|k: int|
            0 <= k < n2 ==> #[trigger] escaped.ensures((zs[k],), false)) && (n2 < max_iter
            ==> escaped.ensures((zs[n2 as int],), true));
    if n1 < n2 {
        lemma_orbits_agree(step, start, zs1, zs2, n1 as int);
        assert(escaped.ensures((zs2[n1 as int],), false));
    } else if n2 < n1 {
        lemma_orbits_agree(step, start, zs1, zs2, n2 as int);
        assert(escaped.ensures((zs1[n2 as int],), false));
    }
}

/// Every state of an orbit of a point that `step` can only leave in place is
/// that point.
proof fn lemma_orbit_stays<T, S: Fn(T) -> T>(step: S, start: T, zs: Seq<T>, k: int)
    requires
        forall|r: T| #[trigger] step.ensures((start,), r) ==> r == start,
        is_orbit(step, start, zs),
        0 <= k < zs.len(),
    ensures
        zs[k] == start,
    decreases k,
{
    if k > 0 {
        lemma_orbit_stays(step, start, zs, k - 1);
        let j = k - 1;
        assert(step.ensures((zs[j],), zs[j + 1]));
    }
}

/// A starting point that `escaped` never reports as escaped and that `step`
/// can only leave in place never escapes: its count is the whole budget.
pub proof fn lemma_fixed_point_uses_budget<T, E: Fn(T) -> bool, S: Fn(T) -> T>(
    escaped: E,
    step: S,
    start: T,
    max_iter: nat,
    n: nat,
)
    requires
        !escaped.ensures((start,), true),
        forall|r: T| #[trigger] step.ensures((start,), r) ==> r == start,
        is_escape_count(escaped, step, start, max_iter, n),
    ensures
        n == max_iter,
{
    let zs = choose|zs: Seq<T>|
        #[trigger] is_orbit(step, start, zs) && zs.len() == n + 1 && (forall|k: int|
            0 <= k < n ==> #[trigger] escaped.ensures((zs[k],), false)) && (n < max_iter
            ==> escaped.ensures((zs[n as int],), true));
    lemma_orbit_stays(step, start, zs, n as int);
}

/// A starting point that `escaped` always reports as escaped has count zero.
pub proof fn lemma_escaped_start_counts_zero<T, E: Fn(T) -> bool, S: Fn(T) -> T>(
    escaped: E,
    step: S,
    start: T,
    max_iter: nat,
    n: nat,
)
    requires
        !escaped.ensures((start,), false),
        is_escape_count(escaped, step, start, max_iter, n),
    ensures
        n == 0,
{
    let zs = choose|zs: Seq<T>|
        #[trigger] is_orbit(step, start, zs) && zs.len() == n + 1 && (forall|k: int|
            0 <= k < n ==> #[trigger] escaped.ensures((zs[k],), false)) && (n < max_iter
            ==> escaped.ensures((zs[n as int],), true));
    if n > 0 {
        assert(escaped.ensures((zs[0],), false));
    }
}

/// A starting point that is never reported as escaped, whose every successor
/// always is, has count one under any budget of at least one step.
pub proof fn lemma_escapes_on_first_step<T, E: Fn(T) -> bool, S: Fn(T) -> T>(
    escaped: E,
    step: S,
    start: T,
    max_iter: nat,
    n: nat,
)
    requires
        !escaped.ensures((start,), true),
        forall|r: T| #[trigger] step.ensures((start,), r) ==> !escaped.ensures((r,), false),
        max_iter >= 1,
        is_escape_count(escaped, step, start, max_iter, n),
    ensures
        n == 1,
{
    let zs = choose|zs: Seq<T>|
        #[trigger] is_orbit(step, start, zs) && zs.len() == n + 1 && (forall|k: int|
            0 <= k < n ==> #[trigger] escaped.ensures((zs[k],), false)) && (n < max_iter
            ==> escaped.ensures((zs[n as int],), true));
    if n >= 2 {
        let j: int = 0;
        assert(step.ensures((zs[j],), zs[j + 1]));
        assert(escaped.ensures((zs[1],), false));
    }
}

} // verus!
