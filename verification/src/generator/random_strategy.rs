//! The push-based strategy: fixed-size chunks of completely random text,
//! meant to be published into a bounded channel from a dedicated unit of
//! execution.
//!
//! The loop that spawns, sends and sleeps lives outside this library; what
//! stands here is everything that loop decides or computes: the chunk of
//! exactly `chunk_size` characters, and the rule for when to pause and when
//! to stop (only when the consumer has dropped its receiving end).

use vstd::prelude::*;

use rand::rngs::SmallRng;

use super::{chunk_with_payload_len, lemma_wrapped_len, sample_alphanumeric, wrap_payload};
use super::P_TAG_SIZE;
use crate::config::GeneratorConfig;

verus! {

/// Generates `chunk_size` of completely random text.
#[derive(Clone, Copy, Debug)]
pub struct Random {
    /// Total length of each generated chunk, markup included, in characters.
    pub chunk_size: usize,
    /// Pause between two emissions, in milliseconds; `0` means unthrottled.
    pub sleep_delay: u64,
}

/// What the loop driving a [`Random`] must do after one send attempt.
#[derive(Clone, Copy, Debug, PartialEq, Eq, Structural)]
pub enum StepAction {
    /// The chunk was delivered: keep producing, after a pause of this many
    /// milliseconds (`0` means none).
    Continue { pause_ms: u64 },
    /// The consumer dropped its receiving end: stop, attempting no further
    /// send.
    Stop,
}

impl Random {
    /// The fixed chunk leaves room for the markup around the payload, so the
    /// payload length cannot underflow.
    pub open spec fn wf(self) -> bool {
        self.chunk_size > P_TAG_SIZE
    }

    pub fn new(chunk_size: usize, sleep_delay: u64) -> (r: Self)
        ensures
            r.chunk_size == chunk_size,
            r.sleep_delay == sleep_delay,
    {
        Random { chunk_size, sleep_delay }
    }

    /// Checked construction: a chunk size with no room for the markup is a
    /// configuration error, rejected here, before any producer starts.
    pub fn try_new(chunk_size: usize, sleep_delay: u64) -> (r: Option<Self>)
        ensures
            r is Some <==> chunk_size > P_TAG_SIZE,
            r matches Some(x) ==> x == (Random { chunk_size, sleep_delay }),
    {
        if chunk_size > P_TAG_SIZE {
            Some(Random { chunk_size, sleep_delay })
        } else {
            None
        }
    }

    /// One chunk of the steady-state loop: exactly `chunk_size` characters,
    /// of which exactly `chunk_size - P_TAG_SIZE` are the random
    /// alphanumeric payload.
    pub fn generate_chunk(&self, rng: &mut SmallRng) -> (r: String)
        requires
            self.wf(),
        ensures
            r@.len() == self.chunk_size,
            chunk_with_payload_len(r@, self.chunk_size - P_TAG_SIZE),
    {
        let payload = sample_alphanumeric(rng, self.chunk_size - P_TAG_SIZE);
        let ghost payload_view = payload@;
        let chunk = wrap_payload(payload);
        proof {
            lemma_wrapped_len(payload_view);
        }
        chunk
    }

    /// The sole termination rule of the push loop: pause-and-continue after
    /// every delivered chunk, stop exactly when the consumer has dropped the
    /// receiving end.
    pub fn on_send_result(&self, delivered: bool) -> (r: StepAction)
        ensures
            delivered ==> r == (StepAction::Continue { pause_ms: self.sleep_delay }),
            !delivered ==> r is Stop,
    {
        if delivered {
            StepAction::Continue { pause_ms: self.sleep_delay }
        } else {
            StepAction::Stop
        }
    }
}

impl Default for Random {
    fn default() -> (r: Self)
        ensures
            r.chunk_size == GeneratorConfig::default_spec().chunk_size,
            r.sleep_delay == GeneratorConfig::default_spec().sleep_delay,
            r.wf(),
    {
        Random::new(
            GeneratorConfig::default().chunk_size,
            GeneratorConfig::default().sleep_delay,
        )
    }
}

} // verus!
