//! The pull-based generator and the chunk-generation primitive shared with
//! the push-based strategy.
//!
//! A chunk is one markup-wrapped run of random alphanumeric text,
//! `<p>\n` + payload + `\n</p>\n`. The pull-based [`PandorasGenerator`] turns
//! into a [`ChunkStream`], a lazy, conceptually infinite sequence that first
//! yields a fixed priming chunk and then one paragraph chunk per pull.

pub mod random_strategy;

use vstd::prelude::*;

use rand::distributions::{Alphanumeric, DistString};
use rand::rngs::SmallRng;
use rand::Rng;
use rand::SeedableRng;

use crate::config::GeneratorConfig;

verus! {

/// Number of markup characters wrapping each random payload:
/// `<p>\n` (4) plus `\n</p>\n` (6).
pub const P_TAG_SIZE: usize = 10;

/// One ASCII alphanumeric character.
pub open spec fn is_alnum_char(c: char) -> bool {
    ('a' <= c && c <= 'z') || ('A' <= c && c <= 'Z') || ('0' <= c && c <= '9')
}

/// Every character of the sequence is ASCII alphanumeric.
pub open spec fn all_alnum(s: Seq<char>) -> bool {
    forall|i: int| 0 <= i < s.len() ==> is_alnum_char(s[i])
}

/// The markup wrapped around one payload.
pub open spec fn wrapped(payload: Seq<char>) -> Seq<char> {
    "<p>\n"@ + payload + "\n</p>\n"@
}

/// `s` is one generated chunk whose alphanumeric payload is exactly `n`
/// characters long.
pub open spec fn chunk_with_payload_len(s: Seq<char>, n: int) -> bool {
    exists|p: Seq<char>| s == wrapped(p) && all_alnum(p) && p.len() == n
}

/// `s` is one generated chunk whose alphanumeric payload length lies in
/// `[min, max)`.
pub open spec fn pull_chunk(s: Seq<char>, min: int, max: int) -> bool {
    exists|p: Seq<char>| s == wrapped(p) && all_alnum(p) && min <= p.len() < max
}

/// The fixed chunk that opens every pull-based stream.
pub open spec fn priming_seq() -> Seq<char> {
    "<html>\n<body>\n"@
}

/// A chunk with a payload of `n` characters is exactly `n + P_TAG_SIZE`
/// characters long.
pub proof fn lemma_wrapped_len(p: Seq<char>)
    ensures
        wrapped(p).len() == p.len() + P_TAG_SIZE,
{
    reveal_strlit("<p>\n");
    reveal_strlit("\n</p>\n");
}

/// Every chunk whose payload length is `n` has total length `n + P_TAG_SIZE`.
pub proof fn lemma_chunk_len(s: Seq<char>, n: int)
    requires
        chunk_with_payload_len(s, n),
    ensures
        s.len() == n + P_TAG_SIZE,
{
    let p = choose|p: Seq<char>| s == wrapped(p) && all_alnum(p) && p.len() == n;
    lemma_wrapped_len(p);
}

/// Relies on `rand::rngs::SmallRng`, the non-cryptographic generator both
/// delivery models draw from; a value of it is opaque here.
#[verifier::external_type_specification]
#[verifier::external_body]
pub struct ExSmallRng(SmallRng);

/// Relies on `SmallRng::from_entropy`: a fresh generator, seeded from the
/// operating system independently of every other instance.
#[verifier::external_body]
pub(crate) fn new_small_rng() -> (r: SmallRng) {
    SmallRng::from_entropy()
}

/// Relies on `rand::Rng::gen_range` over `min..max` on `usize`: a value in
/// `[min, max)`. It panics on an empty range, which the precondition rules
/// out.
#[verifier::external_body]
pub(crate) fn gen_range_usize(rng: &mut SmallRng, min: usize, max: usize) -> (r: usize)
    requires
        min < max,
    ensures
        min <= r < max,
{
    rng.gen_range(min..max)
}

/// Relies on `Alphanumeric::sample_string` (`rand::distributions`): exactly
/// `len` characters, each drawn from `A-Z`, `a-z`, `0-9`.
#[verifier::external_body]
pub(crate) fn sample_alphanumeric(rng: &mut SmallRng, len: usize) -> (r: String)
    ensures
        r@.len() == len,
        all_alnum(r@),
{
    Alphanumeric.sample_string(rng, len)
}

/// Wraps one payload in the fixed paragraph markup.
pub fn wrap_payload(payload: String) -> (r: String)
    ensures
        r@ == wrapped(payload@),
{
    let mut out = String::from_str("<p>\n");
    out.append(payload.as_str());
    out.append("\n</p>\n");
    proof {
        assert(out@ =~= wrapped(payload@));
    }
    out
}

/// The fixed chunk that opens every pull-based stream, as an owned value.
pub fn priming_chunk() -> (r: String)
    ensures
        r@ == priming_seq(),
{
    String::from_str("<html>\n<body>\n")
}

/// The pull-based generator: remembers the payload size range and samples
/// one paragraph chunk per step.
#[derive(Clone, Copy, Debug)]
pub struct PandorasGenerator {
    /// Inclusive lower bound on the payload length, in characters.
    pub min_chunk_size: usize,
    /// Exclusive upper bound on the payload length, in characters.
    pub max_chunk_size: usize,
}

/// Where a [`ChunkStream`] stands: one priming chunk left, or in the
/// steady state that never ends.
pub enum StreamState {
    Priming,
    Generating,
}

/// The lazy pull-based sequence of chunks. The first pull yields the fixed
/// priming chunk; every later pull yields a fresh paragraph chunk. It never
/// signals completion: it stops only when the consumer stops pulling.
pub struct ChunkStream {
    /// The generator the stream was made from.
    pub generator: PandorasGenerator,
    /// One priming chunk left, or steady state.
    pub state: StreamState,
    /// This stream's own random source, shared with no other instance.
    pub rng: SmallRng,
}

impl PandorasGenerator {
    /// The payload size range is non-empty, so sampling from it cannot fail.
    pub open spec fn wf(self) -> bool {
        self.min_chunk_size < self.max_chunk_size
    }

    /// Creates the generator from a config.
    pub fn from_config(config: GeneratorConfig) -> (r: Self)
        ensures
            r.min_chunk_size == config.min_chunk_size,
            r.max_chunk_size == config.max_chunk_size,
            config.pull_valid() ==> r.wf(),
    {
        PandorasGenerator {
            min_chunk_size: config.min_chunk_size,
            max_chunk_size: config.max_chunk_size,
        }
    }

    /// One freshly sampled paragraph chunk. The sequence is infinite, so the
    /// step always yields a value.
    pub fn next(&mut self, rng: &mut SmallRng) -> (r: Option<String>)
        requires
            old(self).wf(),
        ensures
            *final(self) == *old(self),
            r is Some,
            pull_chunk(
                r.unwrap()@,
                old(self).min_chunk_size as int,
                old(self).max_chunk_size as int,
            ),
    {
        let size = gen_range_usize(rng, self.min_chunk_size, self.max_chunk_size);
        let payload = sample_alphanumeric(rng, size);
        let chunk = wrap_payload(payload);
        Some(chunk)
    }

    /// Turns the generator into its lazy sequence of chunks, starting with
    /// the priming chunk. A fresh stream always starts in the priming state,
    /// whatever earlier streams did.
    pub fn to_stream(self) -> (s: ChunkStream)
        ensures
            s.generator == self,
            s.state is Priming,
    {
        ChunkStream { generator: self, state: StreamState::Priming, rng: new_small_rng() }
    }
}

impl Default for PandorasGenerator {
    fn default() -> (r: Self)
        ensures
            r.min_chunk_size == GeneratorConfig::default_spec().min_chunk_size,
            r.max_chunk_size == GeneratorConfig::default_spec().max_chunk_size,
            r.wf(),
    {
        PandorasGenerator::from_config(GeneratorConfig::default())
    }
}

impl ChunkStream {
    /// The stream can keep sampling forever.
    pub open spec fn wf(self) -> bool {
        self.generator.wf()
    }

    /// Pulls the next chunk. The first pull yields exactly the priming
    /// chunk and moves the stream to its steady state, where every pull
    /// yields a paragraph chunk whose payload length lies in the
    /// generator's range. There is no terminal element.
    pub fn next(&mut self) -> (r: String)
        requires
            old(self).wf(),
        ensures
            final(self).generator == old(self).generator,
            final(self).state is Generating,
            old(self).state is Priming ==> r@ == priming_seq(),
            old(self).state is Generating ==> pull_chunk(
                r@,
                old(self).generator.min_chunk_size as int,
                old(self).generator.max_chunk_size as int,
            ),
    {
        match self.state {
            StreamState::Priming => {
                self.state = StreamState::Generating;
                priming_chunk()
            },
            StreamState::Generating => {
                let r = self.generator.next(&mut self.rng);
                r.unwrap()
            },
        }
    }
}

} // verus!
