use vstd::prelude::*;
use vstd::rwlock::RwLock;
use vstd::rwlock::RwLockPredicate;
use crate::generator::GeneratorState;
use crate::generator::pcg_next_i32;
use crate::generator::pcg_next_u64;
use crate::generator::pcg_range_i64;
use crate::generator::pcg_range_i64_inclusive;
use crate::generator::pcg_range_u64;

verus! {

/// The lock invariant of a handle: the guarded generator keeps, for the whole
/// life of the handle, the seeding recorded when the handle was built.
pub struct SeedPred {
    pub seed: Option<u64>,
}

impl RwLockPredicate<GeneratorState> for SeedPred {
    open spec fn inv(self, s: GeneratorState) -> bool {
        s@.seed == self.seed
    }
}

/// Why a sampling request was refused.
#[derive(Clone, Copy, Debug, PartialEq, Eq, Structural)]
pub enum RandomError {
    /// Bounds that admit no value: an empty range.
    InvalidRange,
}

/// A handle to one pseudo-random generator, shareable between any number of
/// concurrent callers. The generator state sits behind a lock; every sampling
/// operation acquires it, serves exactly one request, and releases it, so
/// concurrent callers see a strict serial order of draws with no lost or
/// duplicated state transition.
pub struct RandomNumberGenerator {
    rng: RwLock<GeneratorState, SeedPred>,
}

impl RandomNumberGenerator {
    /// How this handle was seeded: `Some(seed)` for a deterministic seed,
    /// `None` for the platform entropy source. Fixed for the handle's life.
    pub closed spec fn seeding(&self) -> Option<u64> {
        self.rng.pred().seed
    }

    /// Creates a handle whose generator is seeded from the platform entropy
    /// source, so its draws are not reproducible.
    pub fn new() -> (r: Self)
        ensures
            r.seeding() is None,
    {
        let state = GeneratorState::from_entropy();
        RandomNumberGenerator { rng: RwLock::new(state, Ghost(SeedPred { seed: None })) }
    }

    /// Creates a handle whose generator is deterministically derived from
    /// `seed`: it serves the same values for the same requests every time.
    pub fn seeded(seed: u64) -> (r: Self)
        ensures
            r.seeding() == Some(seed),
    {
        let state = GeneratorState::seeded(seed);
        RandomNumberGenerator { rng: RwLock::new(state, Ghost(SeedPred { seed: Some(seed) })) }
    }

    /// Draws one `i64` uniformly from the half-open range `low..high`,
    /// advancing the shared generator by exactly one request. On a seeded
    /// handle the value is a draw of the named algorithm at the seed and some
    /// request history — the one the guarded generator held at acquisition.
    pub fn range(&self, low: i64, high: i64) -> (r: i64)
        requires
            low < high,
        ensures
            low <= r < high,
            self.seeding() matches Some(s) ==> exists|h: Seq<(int, int, int)>|
                r == pcg_range_i64(s, h, low, high),
    {
        let (mut state, handle) = self.rng.acquire_write();
        let ghost pre = state@.hist;
        let r = state.range_i64(low, high);
        handle.release_write(state);
        proof {
            if self.seeding() is Some {
                assert(r == pcg_range_i64(self.seeding()->0, pre, low, high));
            }
        }
        r
    }

    /// Draws one `i64` uniformly from the closed range `low..=high`,
    /// advancing the shared generator by exactly one request. On a seeded
    /// handle the value is a draw of the named algorithm at the seed and some
    /// request history — the one the guarded generator held at acquisition.
    pub fn range_inclusive(&self, low: i64, high: i64) -> (r: i64)
        requires
            low <= high,
        ensures
            low <= r <= high,
            self.seeding() matches Some(s) ==> exists|h: Seq<(int, int, int)>|
                r == pcg_range_i64_inclusive(s, h, low, high),
    {
        let (mut state, handle) = self.rng.acquire_write();
        let ghost pre = state@.hist;
        let r = state.range_i64_inclusive(low, high);
        handle.release_write(state);
        proof {
            if self.seeding() is Some {
                assert(r == pcg_range_i64_inclusive(self.seeding()->0, pre, low, high));
            }
        }
        r
    }

    /// Draws one `u64` uniformly from the half-open range `low..high`,
    /// advancing the shared generator by exactly one request. On a seeded
    /// handle the value is a draw of the named algorithm at the seed and some
    /// request history — the one the guarded generator held at acquisition.
    pub fn range_u64(&self, low: u64, high: u64) -> (r: u64)
        requires
            low < high,
        ensures
            low <= r < high,
            self.seeding() matches Some(s) ==> exists|h: Seq<(int, int, int)>|
                r == pcg_range_u64(s, h, low, high),
    {
        let (mut state, handle) = self.rng.acquire_write();
        let ghost pre = state@.hist;
        let r = state.range_u64(low, high);
        handle.release_write(state);
        proof {
            if self.seeding() is Some {
                assert(r == pcg_range_u64(self.seeding()->0, pre, low, high));
            }
        }
        r
    }

    /// Draws one `i64` from the half-open range `low..high` after checking
    /// the bounds: empty bounds are refused rather than sampled.
    pub fn try_range(&self, low: i64, high: i64) -> (r: Result<i64, RandomError>)
        ensures
            low < high <==> r is Ok,
            r matches Ok(v) ==> low <= v < high,
            low >= high ==> r == Err::<i64, RandomError>(RandomError::InvalidRange),
            r matches Ok(v) ==> (self.seeding() matches Some(s) ==> exists|h: Seq<(int, int, int)>|
                v == pcg_range_i64(s, h, low, high)),
    {
        if low < high {
            Ok(self.range(low, high))
        } else {
            Err(RandomError::InvalidRange)
        }
    }

    /// Draws one `i64` from the closed range `low..=high` after checking the
    /// bounds: empty bounds are refused rather than sampled.
    pub fn try_range_inclusive(&self, low: i64, high: i64) -> (r: Result<i64, RandomError>)
        ensures
            low <= high <==> r is Ok,
            r matches Ok(v) ==> low <= v <= high,
            low > high ==> r == Err::<i64, RandomError>(RandomError::InvalidRange),
            r matches Ok(v) ==> (self.seeding() matches Some(s) ==> exists|h: Seq<(int, int, int)>|
                v == pcg_range_i64_inclusive(s, h, low, high)),
    {
        if low <= high {
            Ok(self.range_inclusive(low, high))
        } else {
            Err(RandomError::InvalidRange)
        }
    }

    /// Draws one full-width `u64` (every bit pattern equally likely),
    /// advancing the shared generator by exactly one request. On a seeded
    /// handle the value is a draw of the named algorithm at the seed and some
    /// request history — the one the guarded generator held at acquisition.
    pub fn gen_next(&self) -> (r: u64)
        ensures
            self.seeding() matches Some(s) ==> exists|h: Seq<(int, int, int)>|
                r == pcg_next_u64(s, h),
    {
        let (mut state, handle) = self.rng.acquire_write();
        let ghost pre = state@.hist;
        let r = state.next_u64();
        handle.release_write(state);
        proof {
            if self.seeding() is Some {
                assert(r == pcg_next_u64(self.seeding()->0, pre));
            }
        }
        r
    }

    /// Draws one full-width `i32` (every bit pattern equally likely),
    /// advancing the shared generator by exactly one request. On a seeded
    /// handle the value is a draw of the named algorithm at the seed and some
    /// request history — the one the guarded generator held at acquisition.
    pub fn gen_next_i32(&self) -> (r: i32)
        ensures
            self.seeding() matches Some(s) ==> exists|h: Seq<(int, int, int)>|
                r == pcg_next_i32(s, h),
    {
        let (mut state, handle) = self.rng.acquire_write();
        let ghost pre = state@.hist;
        let r = state.next_i32();
        handle.release_write(state);
        proof {
            if self.seeding() is Some {
                assert(r == pcg_next_i32(self.seeding()->0, pre));
            }
        }
        r
    }
}

impl Default for RandomNumberGenerator {
    /// Same as `new`: a handle seeded from the platform entropy source.
    fn default() -> (r: Self)
        ensures
            r.seeding() is None,
    {
        RandomNumberGenerator::new()
    }
}

} // verus!
