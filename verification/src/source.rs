use vstd::prelude::*;

verus! {

/// A caller-supplied randomness capability: everything the samplers need from
/// a generator. `pick_below` is one uniform draw from `0..n`; `pick_two_distinct`
/// is one uniform draw of an unordered pair of distinct indices from `0..len`.
/// Uniformity is a contract on the implementation that no verifier checks;
/// the stated bounds and distinctness are what the samplers' proofs rest on.
pub trait RandomSource {
    /// Draw one value uniformly from `0..n`.
    fn pick_below(&mut self, n: usize) -> (r: usize)
        requires
            n >= 1,
        ensures
            r < n;

    /// Draw two distinct values from `0..len`, every unordered pair equally likely.
    fn pick_two_distinct(&mut self, len: usize) -> (r: (usize, usize))
        requires
            len >= 2,
        ensures
            r.0 < len,
            r.1 < len,
            r.0 != r.1;
}

#[verifier::external_type_specification]
#[verifier::external_body]
pub struct ExStdRng(rand::rngs::StdRng);

/// Relies on rand::Rng::gen_range over `0..n`: one draw from that range, so a
/// value below `n`. gen_range panics on an empty range, hence `n >= 1`.
#[verifier::external_body]
fn std_pick_below(rng: &mut rand::rngs::StdRng, n: usize) -> (r: usize)
    requires
        n >= 1,
    ensures
        r < n,
{
    rand::Rng::gen_range(rng, 0..n)
}

/// Relies on rand::seq::index::sample(rng, len, 2): exactly two distinct
/// indices from `0..len`. sample panics when asked for more indices than the
/// range holds, hence `len >= 2`.
#[verifier::external_body]
fn std_pick_two_distinct(rng: &mut rand::rngs::StdRng, len: usize) -> (r: (usize, usize))
    requires
        len >= 2,
    ensures
        r.0 < len,
        r.1 < len,
        r.0 != r.1,
{
    let drawn = rand::seq::index::sample(rng, len, 2);
    (drawn.index(0), drawn.index(1))
}

/// Relies on rand::SeedableRng::seed_from_u64 for StdRng: a generator whose
/// draw sequence is determined by the seed.
#[verifier::external_body]
fn std_seeded(seed: u64) -> rand::rngs::StdRng {
    <rand::rngs::StdRng as rand::SeedableRng>::seed_from_u64(seed)
}

/// A [`RandomSource`] backed by rand's standard generator.
pub struct StdRandomSource {
    rng: rand::rngs::StdRng,
}

impl StdRandomSource {
    /// A source seeded deterministically: the same seed gives the same
    /// sequence of draws.
    pub fn from_seed(seed: u64) -> (r: StdRandomSource) {
        StdRandomSource { rng: std_seeded(seed) }
    }
}

impl RandomSource for StdRandomSource {
    fn pick_below(&mut self, n: usize) -> (r: usize) {
        std_pick_below(&mut self.rng, n)
    }

    fn pick_two_distinct(&mut self, len: usize) -> (r: (usize, usize)) {
        std_pick_two_distinct(&mut self.rng, len)
    }
}

/// A deterministic [`RandomSource`] that replays a fixed script: each draw
/// takes the next scripted value modulo the requested bound, and 0 once the
/// script is exhausted. Distinct pairs come from two scripted draws, with a
/// draw that collides with the first value moved to the top value `len - 1`.
pub struct ScriptedSource {
    values: Vec<usize>,
    pos: usize,
}

impl ScriptedSource {
    /// A source that replays `values`, from the first onward.
    pub fn new(values: Vec<usize>) -> (r: ScriptedSource) {
        ScriptedSource { values, pos: 0 }
    }
}

impl RandomSource for ScriptedSource {
    fn pick_below(&mut self, n: usize) -> (r: usize) {
        let v: usize = if self.pos < self.values.len() {
            let x = self.values[self.pos];
            self.pos = self.pos + 1;
            x
        } else {
            0
        };
        v % n
    }

    fn pick_two_distinct(&mut self, len: usize) -> (r: (usize, usize)) {
        let x = self.pick_below(len);
        let raw = self.pick_below(len - 1);
        if raw == x {
            (x, len - 1)
        } else {
            (x, raw)
        }
    }
}

} // verus!
