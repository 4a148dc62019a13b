use vstd::prelude::*;

use crate::source::RandomSource;

verus! {

/// The inputs both samplers accept: at least three indices, and a denied pair
/// of two distinct indices that both lie inside `0..len`.
pub open spec fn inputs_valid(len: usize, deny_a: usize, deny_b: usize) -> bool {
    &&& len >= 3
    &&& deny_a != deny_b
    &&& deny_a < len
    &&& deny_b < len
}

/// Whether `{x, y}` and `{a, b}` are the same unordered pair.
pub open spec fn same_unordered(x: usize, y: usize, a: usize, b: usize) -> bool {
    ||| (x == a && y == b)
    ||| (x == b && y == a)
}

/// What both samplers return: an ordered pair of distinct indices inside
/// `0..len` that is not the denied pair.
pub open spec fn pair_valid(
    len: usize,
    deny_a: usize,
    deny_b: usize,
    low: usize,
    high: usize,
) -> bool {
    &&& low < high
    &&& high < len
    &&& !same_unordered(low, high, deny_a, deny_b)
}

/// Why a `(len, deny)` input is rejected before any drawing starts.
#[derive(Clone, Copy, Debug, PartialEq, Eq, Structural)]
pub enum PreconditionViolation {
    /// Fewer than three indices to pick from.
    DomainTooSmall,
    /// The two denied indices are equal.
    DeniedNotDistinct,
    /// A denied index lies outside `0..len`.
    DeniedOutOfRange,
}

/// Check the shared preconditions of both samplers, reporting the first
/// violation in the order: domain size, distinctness, range.
pub fn validate_inputs(len: usize, deny: (usize, usize)) -> (r: Result<
    (),
    PreconditionViolation,
>)
    ensures
        r is Ok <==> inputs_valid(len, deny.0, deny.1),
        r is Ok ==> r == Result::<(), PreconditionViolation>::Ok(()),
        r == Result::<(), PreconditionViolation>::Err(PreconditionViolation::DomainTooSmall)
            <==> len < 3,
        r == Result::<(), PreconditionViolation>::Err(PreconditionViolation::DeniedNotDistinct)
            <==> (len >= 3 && deny.0 == deny.1),
        r == Result::<(), PreconditionViolation>::Err(PreconditionViolation::DeniedOutOfRange)
            <==> (len >= 3 && deny.0 != deny.1 && (deny.0 >= len || deny.1 >= len)),
{
    if len < 3 {
        Err(PreconditionViolation::DomainTooSmall)
    } else if deny.0 == deny.1 {
        Err(PreconditionViolation::DeniedNotDistinct)
    } else if deny.0 >= len || deny.1 >= len {
        Err(PreconditionViolation::DeniedOutOfRange)
    } else {
        Ok(())
    }
}

/// Order two indices so the smaller comes first.
pub fn order_pair(a: usize, b: usize) -> (r: (usize, usize))
    ensures
        r.0 <= r.1,
        same_unordered(r.0, r.1, a, b),
        a != b ==> r.0 < r.1,
{
    if a > b {
        (b, a)
    } else {
        (a, b)
    }
}

/// One rejection step of the uniform sampler: keep a drawn pair of distinct
/// indices unless it is exactly the denied pair, and order what is kept.
pub fn decide_draw(x: usize, y: usize, deny: (usize, usize)) -> (r: Option<(usize, usize)>)
    requires
        x != y,
    ensures
        r is None <==> same_unordered(x, y, deny.0, deny.1),
        !same_unordered(x, y, deny.0, deny.1) && x < y ==> r == Some((x, y)),
        !same_unordered(x, y, deny.0, deny.1) && y < x ==> r == Some((y, x)),
{
    if (x != deny.0 && x != deny.1) || (y != deny.0 && y != deny.1) {
        Some(order_pair(x, y))
    } else {
        None
    }
}

/// Rejection sampling: draw unordered pairs of distinct indices, each draw
/// uniform over all such pairs, until one differs from the denied pair, making
/// at most `rounds` draws. Conditioning a uniform draw on not being the one
/// denied pair keeps every accepted pair equally likely, whatever the bound,
/// so `None` — which comes back only when every draw hit the denied pair —
/// never biases the accepted outputs; a caller may simply draw again.
pub fn sample_uniform<S: RandomSource>(
    source: &mut S,
    len: usize,
    deny: (usize, usize),
    rounds: usize,
) -> (r: Option<(usize, usize)>)
    requires
        inputs_valid(len, deny.0, deny.1),
    ensures
        r matches Some(p) ==> pair_valid(len, deny.0, deny.1, p.0, p.1),
        rounds == 0 ==> r is None,
{
    let mut i: usize = 0;
    let mut found: Option<(usize, usize)> = None;
    while i < rounds && found.is_none()
        invariant
            i <= rounds,
            inputs_valid(len, deny.0, deny.1),
            found matches Some(p) ==> pair_valid(len, deny.0, deny.1, p.0, p.1),
            found is Some ==> i >= 1,
        decreases rounds - i,
    {
        let (x, y) = source.pick_two_distinct(len);
        found = decide_draw(x, y, deny);
        i = i + 1;
    }
    found
}

/// The three ranges that two denied indices `low < high` leave open in
/// `0..len` — `0..low`, `low+1..high`, and `high+1..len` — with `t` selecting
/// one of them in proportion to its size: of the `len - 2` values `t` can
/// take, exactly as many select each range as it has elements, so an empty
/// range is never selected. Returns the start and size of the selected range.
pub fn gap_range(len: usize, low: usize, high: usize, t: usize) -> (r: (usize, usize))
    requires
        low < high,
        high < len,
        t < len - 2,
    ensures
        t < low ==> r.0 == 0 && r.1 == low,
        low <= t < high - 1 ==> r.0 == low + 1 && r.1 == high - low - 1,
        t >= high - 1 ==> r.0 == high + 1 && r.1 == len - high - 1,
        r.1 >= 1,
        r.0 + r.1 <= len,
        r.0 + r.1 <= low || r.0 > high || (r.0 > low && r.0 + r.1 <= high),
{
    if t < low {
        (0, low)
    } else if t < high - 1 {
        (low + 1, high - low - 1)
    } else {
        (high + 1, len - high - 1)
    }
}

/// Remap a draw from `0..len-1` so it avoids `a`: a draw that collides with
/// `a` moves to the top value `len - 1`, which the raw draw itself can never
/// take, so the result is uniform over `0..len` excluding `a` whenever the raw
/// draw is uniform.
pub fn distinct_from(a: usize, raw: usize, len: usize) -> (r: usize)
    requires
        a < len,
        raw < len - 1,
    ensures
        r < len,
        r != a,
        raw == a ==> r == len - 1,
        raw != a ==> r == raw,
{
    if raw == a {
        len - 1
    } else {
        raw
    }
}

/// Single-pass sampling: draw the first index uniformly from `0..len`; then
/// draw the second to be distinct from the first and, when the first index is
/// a denied one, from the three ranges around the denied indices in proportion
/// to their sizes, so that it avoids both denied indices. Faster than
/// [`sample_uniform`] — no draw is ever rejected — but the branch on the first
/// index makes the joint distribution over pairs biased.
pub fn sample_fast<S: RandomSource>(source: &mut S, len: usize, deny: (usize, usize)) -> (r: (
    usize,
    usize,
))
    requires
        inputs_valid(len, deny.0, deny.1),
    ensures
        pair_valid(len, deny.0, deny.1, r.0, r.1),
{
    let a = source.pick_below(len);
    let b: usize;
    if a == deny.0 || a == deny.1 {
        let low = if deny.0 > deny.1 {
            deny.1
        } else {
            deny.0
        };
        let high = if deny.0 > deny.1 {
            deny.0
        } else {
            deny.1
        };
        let t = source.pick_below(len - 2);
        let (start, size) = gap_range(len, low, high, t);
        let off = source.pick_below(size);
        b = start + off;
    } else {
        let raw = source.pick_below(len - 1);
        b = distinct_from(a, raw, len);
    }
    order_pair(a, b)
}

} // verus!
