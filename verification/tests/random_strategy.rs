use pandoras_pot::config::GeneratorConfig;
use pandoras_pot::generator::random_strategy::{Random, StepAction};
use pandoras_pot::generator::P_TAG_SIZE;

use rand::rngs::SmallRng;
use rand::SeedableRng;

/// Returns the payload of a well-formed paragraph chunk, or panics.
fn payload_of(chunk: &str) -> &str {
    assert!(chunk.starts_with("<p>\n"), "chunk does not open with the markup: {chunk:?}");
    assert!(chunk.ends_with("\n</p>\n"), "chunk does not close with the markup: {chunk:?}");
    &chunk[4..chunk.len() - 6]
}

#[test]
fn push_chunks_have_exact_size() {
    let strategy = Random::new(100, 0);
    let mut rng = SmallRng::from_entropy();
    for _ in 0..50 {
        let chunk = strategy.generate_chunk(&mut rng);
        assert_eq!(chunk.len(), 100);
        let payload = payload_of(&chunk);
        assert_eq!(payload.len(), 100 - P_TAG_SIZE);
        assert!(payload.chars().all(|c| c.is_ascii_alphanumeric()));
    }
}

#[test]
fn smallest_viable_chunk_has_one_payload_char() {
    let strategy = Random::try_new(P_TAG_SIZE + 1, 0).unwrap();
    let mut rng = SmallRng::from_entropy();
    let chunk = strategy.generate_chunk(&mut rng);
    assert_eq!(chunk.len(), P_TAG_SIZE + 1);
    assert_eq!(payload_of(&chunk).len(), 1);
}

#[test]
fn chunk_size_without_markup_room_is_rejected() {
    assert!(Random::try_new(0, 0).is_none());
    assert!(Random::try_new(P_TAG_SIZE, 0).is_none());
    assert!(Random::try_new(P_TAG_SIZE + 1, 0).is_some());
}

#[test]
fn producer_stops_exactly_on_disconnect() {
    let strategy = Random::new(100, 7);
    assert_eq!(strategy.on_send_result(false), StepAction::Stop);
    assert_eq!(strategy.on_send_result(true), StepAction::Continue { pause_ms: 7 });
}

#[test]
fn unthrottled_producer_pauses_for_nothing() {
    let strategy = Random::new(100, 0);
    assert_eq!(strategy.on_send_result(true), StepAction::Continue { pause_ms: 0 });
}

#[test]
fn independent_producers_differ() {
    let a = Random::new(80, 0);
    let b = Random::new(80, 0);
    let mut rng_a = SmallRng::from_entropy();
    let mut rng_b = SmallRng::from_entropy();
    assert_ne!(a.generate_chunk(&mut rng_a), b.generate_chunk(&mut rng_b));
}

#[test]
fn new_keeps_its_arguments() {
    let strategy = Random::new(123, 45);
    assert_eq!(strategy.chunk_size, 123);
    assert_eq!(strategy.sleep_delay, 45);
}

#[test]
fn default_matches_default_config() {
    let strategy = Random::default();
    let config = GeneratorConfig::default();
    assert_eq!(strategy.chunk_size, config.chunk_size);
    assert_eq!(strategy.sleep_delay, config.sleep_delay);
}

#[test]
fn restarted_producer_generates_cleanly() {
    let first = Random::new(60, 0);
    let mut rng = SmallRng::from_entropy();
    let _ = first.generate_chunk(&mut rng);
    drop(first);
    let second = Random::new(60, 0);
    let chunk = second.generate_chunk(&mut rng);
    assert_eq!(chunk.len(), 60);
    assert!(payload_of(&chunk).chars().all(|c| c.is_ascii_alphanumeric()));
}
