//! Configuration consumed by the generators.
//!
//! Values are produced and validated elsewhere; this module only records them
//! and states the numeric preconditions the generators rely on.

use vstd::prelude::*;

verus! {

/// The knobs a generator is built from.
///
/// `min_chunk_size` and `max_chunk_size` bound the random payload length of
/// the pull-based generator; `chunk_size` is the fixed total chunk length
/// (markup included) of the push-based strategy; `sleep_delay` is the pause,
/// in milliseconds, between two emissions of the push-based strategy
/// (`0` means unthrottled).
#[derive(Clone, Copy, Debug)]
pub struct GeneratorConfig {
    pub min_chunk_size: usize,
    pub max_chunk_size: usize,
    pub chunk_size: usize,
    pub sleep_delay: u64,
}

impl GeneratorConfig {
    /// Fit for the pull-based generator: the payload size range is non-empty.
    pub open spec fn pull_valid(self) -> bool {
        self.min_chunk_size < self.max_chunk_size
    }

    /// Fit for the push-based strategy: the fixed chunk leaves room for the
    /// markup around the payload.
    pub open spec fn push_valid(self) -> bool {
        self.chunk_size > crate::generator::P_TAG_SIZE
    }

    /// The configuration that [`Default`] returns.
    pub open spec fn default_spec() -> GeneratorConfig {
        GeneratorConfig {
            min_chunk_size: 1024,
            max_chunk_size: 8000,
            chunk_size: 16384,
            sleep_delay: 0,
        }
    }
}

impl Default for GeneratorConfig {
    fn default() -> (r: Self)
        ensures
            r == GeneratorConfig::default_spec(),
            r.pull_valid(),
            r.push_valid(),
    {
        GeneratorConfig {
            min_chunk_size: 1024,
            max_chunk_size: 8000,
            chunk_size: 16384,
            sleep_delay: 0,
        }
    }
}

} // verus!
