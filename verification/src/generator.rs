use vstd::prelude::*;
use rand::Rng;
use rand::SeedableRng;

verus! {

/// Declares `rand_pcg`'s `Mcg128Xsl64` (the `Pcg64Mcg` algorithm) so that
/// verified code can own one; its internal state stays opaque to the verifier.
#[verifier::external_type_specification]
#[verifier::external_body]
pub struct ExMcg128Xsl64(rand_pcg::Mcg128Xsl64);

/// One recorded sampling request, as a tag together with the bounds it was
/// given (zero where the operation takes no bounds). The tags keep requests of
/// different kinds distinct in a generator's history.
pub open spec fn req_range_i64(low: i64, high: i64) -> (int, int, int) {
    (1int, low as int, high as int)
}

/// A recorded `i64` inclusive-range request.
pub open spec fn req_range_i64_inclusive(low: i64, high: i64) -> (int, int, int) {
    (2int, low as int, high as int)
}

/// A recorded `u64` half-open-range request.
pub open spec fn req_range_u64(low: u64, high: u64) -> (int, int, int) {
    (3int, low as int, high as int)
}

/// A recorded full-width `u64` request.
pub open spec fn req_next_u64() -> (int, int, int) {
    (4int, 0int, 0int)
}

/// A recorded full-width `i32` request.
pub open spec fn req_next_i32() -> (int, int, int) {
    (5int, 0int, 0int)
}

/// The `i64` that the `Pcg64Mcg` algorithm yields for a half-open range
/// request with the given bounds, after serving `history` from `seed`.
pub uninterp spec fn pcg_range_i64(seed: u64, history: Seq<(int, int, int)>, low: i64, high: i64) -> i64;

/// The `i64` that the `Pcg64Mcg` algorithm yields for an inclusive range
/// request with the given bounds, after serving `history` from `seed`.
pub uninterp spec fn pcg_range_i64_inclusive(seed: u64, history: Seq<(int, int, int)>, low: i64, high: i64) -> i64;

/// The `u64` that the `Pcg64Mcg` algorithm yields for a half-open range
/// request with the given bounds, after serving `history` from `seed`.
pub uninterp spec fn pcg_range_u64(seed: u64, history: Seq<(int, int, int)>, low: u64, high: u64) -> u64;

/// The full-width `u64` that the `Pcg64Mcg` algorithm yields after serving
/// `history` from `seed`.
pub uninterp spec fn pcg_next_u64(seed: u64, history: Seq<(int, int, int)>) -> u64;

/// The full-width `i32` that the `Pcg64Mcg` algorithm yields after serving
/// `history` from `seed`.
pub uninterp spec fn pcg_next_i32(seed: u64, history: Seq<(int, int, int)>) -> i32;

/// The abstract state of one generator: how it was seeded (`None` when it was
/// seeded from the platform entropy source) and the sampling requests it has
/// served, oldest first.
pub struct GenView {
    pub seed: Option<u64>,
    pub hist: Seq<(int, int, int)>,
}

/// The mutable state of one pseudo-random bit generator: the compiled-in
/// algorithm's state, together with the ghost record of its seeding and of
/// the requests served so far. Every sampling operation advances the state by
/// exactly one request.
pub struct GeneratorState {
    core: rand_pcg::Mcg128Xsl64,
    seed: Ghost<Option<u64>>,
    hist: Ghost<Seq<(int, int, int)>>,
}

impl View for GeneratorState {
    type V = GenView;

    closed spec fn view(&self) -> GenView {
        GenView { seed: self.seed@, hist: self.hist@ }
    }
}

impl GeneratorState {
    /// Relies on rand_core's `SeedableRng::seed_from_u64`: the state built for
    /// a seed is a fixed function of that seed alone, stable across processes,
    /// platforms and builds.
    #[verifier::external_body]
    pub(crate) fn seeded(seed: u64) -> (r: Self)
        ensures
            r@.seed == Some(seed),
            r@.hist == Seq::<(int, int, int)>::empty(),
    {
        GeneratorState {
            core: rand_pcg::Mcg128Xsl64::seed_from_u64(seed),
            seed: Ghost(Some(seed)),
            hist: Ghost(Seq::empty()),
        }
    }

    /// Relies on rand_core's `SeedableRng::from_entropy`: the state is drawn
    /// from the platform entropy source (the call aborts the process if that
    /// source fails), so nothing is claimed about the values it will yield.
    #[verifier::external_body]
    pub(crate) fn from_entropy() -> (r: Self)
        ensures
            r@.seed is None,
            r@.hist == Seq::<(int, int, int)>::empty(),
    {
        GeneratorState {
            core: rand_pcg::Mcg128Xsl64::from_entropy(),
            seed: Ghost(None),
            hist: Ghost(Seq::empty()),
        }
    }

    /// Relies on rand's `Rng::gen_range` over `low..high`: the sample lies in
    /// the half-open range, and for `Pcg64Mcg` it is a fixed function of the
    /// seed, the requests served before it, and the bounds.
    #[verifier::external_body]
    pub(crate) fn range_i64(&mut self, low: i64, high: i64) -> (r: i64)
        requires
            low < high,
        ensures
            low <= r < high,
            final(self)@.seed == old(self)@.seed,
            final(self)@.hist == old(self)@.hist.push(req_range_i64(low, high)),
            old(self)@.seed matches Some(s) ==> r == pcg_range_i64(s, old(self)@.hist, low, high),
    {
        self.core.gen_range(low..high)
    }

    /// Relies on rand's `Rng::gen_range` over `low..=high`: the sample lies in
    /// the closed range, and for `Pcg64Mcg` it is a fixed function of the
    /// seed, the requests served before it, and the bounds.
    #[verifier::external_body]
    pub(crate) fn range_i64_inclusive(&mut self, low: i64, high: i64) -> (r: i64)
        requires
            low <= high,
        ensures
            low <= r <= high,
            final(self)@.seed == old(self)@.seed,
            final(self)@.hist == old(self)@.hist.push(req_range_i64_inclusive(low, high)),
            old(self)@.seed matches Some(s) ==> r == pcg_range_i64_inclusive(s, old(self)@.hist, low, high),
    {
        self.core.gen_range(low..=high)
    }

    /// Relies on rand's `Rng::gen_range` over `low..high` at type `u64`: the
    /// sample lies in the half-open range, and for `Pcg64Mcg` it is a fixed
    /// function of the seed, the requests served before it, and the bounds.
    #[verifier::external_body]
    pub(crate) fn range_u64(&mut self, low: u64, high: u64) -> (r: u64)
        requires
            low < high,
        ensures
            low <= r < high,
            final(self)@.seed == old(self)@.seed,
            final(self)@.hist == old(self)@.hist.push(req_range_u64(low, high)),
            old(self)@.seed matches Some(s) ==> r == pcg_range_u64(s, old(self)@.hist, low, high),
    {
        self.core.gen_range(low..high)
    }

    /// Relies on rand's `Rng::gen` at type `u64` (the `Standard`
    /// distribution): a full-width uniform bit pattern, and for `Pcg64Mcg` a
    /// fixed function of the seed and the requests served before it.
    #[verifier::external_body]
    pub(crate) fn next_u64(&mut self) -> (r: u64)
        ensures
            final(self)@.seed == old(self)@.seed,
            final(self)@.hist == old(self)@.hist.push(req_next_u64()),
            old(self)@.seed matches Some(s) ==> r == pcg_next_u64(s, old(self)@.hist),
    {
        self.core.gen()
    }

    /// Relies on rand's `Rng::gen` at type `i32` (the `Standard`
    /// distribution): a full-width uniform bit pattern, and for `Pcg64Mcg` a
    /// fixed function of the seed and the requests served before it.
    #[verifier::external_body]
    pub(crate) fn next_i32(&mut self) -> (r: i32)
        ensures
            final(self)@.seed == old(self)@.seed,
            final(self)@.hist == old(self)@.hist.push(req_next_i32()),
            old(self)@.seed matches Some(s) ==> r == pcg_next_i32(s, old(self)@.hist),
    {
        self.core.gen()
    }
}

/// Determinism law: two deterministically seeded generators that agree on
/// their seed and on the requests served so far return equal values for the
/// next request, whichever sampling operation of this library it is and
/// whatever bounds it is given.
pub proof fn lemma_seeded_draws_agree(a: GenView, b: GenView)
    requires
        a.seed is Some,
        a.seed == b.seed,
        a.hist == b.hist,
    ensures
        forall|low: i64, high: i64|
            pcg_range_i64(a.seed->0, a.hist, low, high) == pcg_range_i64(b.seed->0, b.hist, low, high),
        forall|low: i64, high: i64|
            pcg_range_i64_inclusive(a.seed->0, a.hist, low, high) == pcg_range_i64_inclusive(
                b.seed->0,
                b.hist,
                low,
                high,
            ),
        forall|low: u64, high: u64|
            pcg_range_u64(a.seed->0, a.hist, low, high) == pcg_range_u64(b.seed->0, b.hist, low, high),
        pcg_next_u64(a.seed->0, a.hist) == pcg_next_u64(b.seed->0, b.hist),
        pcg_next_i32(a.seed->0, a.hist) == pcg_next_i32(b.seed->0, b.hist),
{
}

/// Determinism law, inductive step: generators that agree on their request
/// history and serve the same request next still agree on their history, so
/// equal call sequences keep seeded generators in agreeing states.
pub proof fn lemma_equal_histories_extend(a: GenView, b: GenView, req: (int, int, int))
    requires
        a.hist == b.hist,
    ensures
        a.hist.push(req) == b.hist.push(req),
{
}

} // verus!
