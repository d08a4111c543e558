//! An infinite generator of filler content: markup-wrapped chunks of random
//! alphanumeric text, produced lazily and indefinitely at a controlled size.
//!
//! Two delivery models share the same chunk-generation primitive:
//! a pull-based lazy sequence ([`generator::PandorasGenerator`]) whose consumer
//! drives the pace, and a push-based strategy ([`generator::random_strategy::Random`])
//! meant to feed a bounded channel from its own unit of execution.

pub mod config;
pub mod generator;
