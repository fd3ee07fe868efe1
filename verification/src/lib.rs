//! Uniformly distributed random values behind one shared, lock-protected
//! handle, so that any number of concurrent callers can draw numbers without
//! owning a generator of their own.
//!
//! The pseudo-random bits come from `rand_pcg`'s `Pcg64Mcg` algorithm through
//! [`generator::GeneratorState`], which pairs the opaque algorithm state with
//! a ghost record of its seeding and of every request served; its trusted
//! contracts state the bounds of each draw and, for seeded generators, that
//! each draw is a fixed function of seed, history and request.
//! [`RandomNumberGenerator`] wraps that state in a verified reader-writer
//! lock and is the handle callers share.

use vstd::prelude::*;

pub mod generator;
pub mod handle;

pub use generator::GenView;
pub use generator::GeneratorState;
pub use handle::RandomError;
pub use handle::RandomNumberGenerator;

verus! {

/// Marker type for host applications that want to register a shared
/// generator in their own resource registry. The registration itself is a
/// one-line binding in the host and lives outside the verified core.
pub struct RandomPlugin;

} // verus!
