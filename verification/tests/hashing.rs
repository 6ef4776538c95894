use sha3::Digest;

use pollbridge::digest::hex_bytes;
use pollbridge::digest::DigestAccumulator;
use pollbridge::hash::hash_source;
use pollbridge::hash::HashOutcome;
use pollbridge::source::ScriptedSource;

fn direct_sha3(data: &[u8]) -> Vec<u8> {
    let mut hasher = sha3::Sha3_256::new();
    hasher.update(data);
    hasher.finalize().to_vec()
}

#[test]
fn digest_matches_direct_hash() {
    // Hashing through the adapter, one delayed byte at a time, equals a
    // direct synchronous hash of the same bytes.
    let data = vec![0xAAu8, 0xBB, 0xCC];
    match hash_source(ScriptedSource::new(data.clone(), 1, 1), 256, 1000) {
        HashOutcome::Digest(d) => {
            assert_eq!(d, direct_sha3(&data));
            assert_eq!(d.len(), 32);
            assert_ne!(d, data);
        }
        other => panic!("expected a digest, got {:?}", other),
    }
}

#[test]
fn digest_of_empty_stream() {
    match hash_source(ScriptedSource::new(Vec::new(), 0, 1), 64, 10) {
        HashOutcome::Digest(d) => {
            assert_eq!(d, direct_sha3(&[]));
            assert_eq!(d.len(), 32);
        }
        other => panic!("expected a digest, got {:?}", other),
    }
}

#[test]
fn digest_independent_of_scheduling() {
    // The digest depends on the stream alone, not on delays or chunk sizes.
    let data: Vec<u8> = (0u8..200).collect();
    let slow = hash_source(ScriptedSource::new(data.clone(), 3, 7), 16, 100_000);
    let fast = hash_source(ScriptedSource::new(data.clone(), 0, 1024), 4096, 100_000);
    match (slow, fast) {
        (HashOutcome::Digest(a), HashOutcome::Digest(b)) => {
            assert_eq!(a, b);
            assert_eq!(a, direct_sha3(&data));
        }
        other => panic!("expected two digests, got {:?}", other),
    }
}

#[test]
fn failure_is_surfaced_without_retry() {
    match hash_source(ScriptedSource::failing(vec![1, 2, 3], 0, 8, 1, 7), 64, 100) {
        HashOutcome::SourceFailure(e) => assert_eq!(e.code, 7),
        other => panic!("expected the source failure, got {:?}", other),
    }
}

#[test]
fn budget_exhaustion_is_reported() {
    // Three steps are not enough for a source that pauses ten times per
    // attempt.
    match hash_source(ScriptedSource::new(vec![1], 10, 1), 64, 3) {
        HashOutcome::Starved => {}
        other => panic!("expected starvation, got {:?}", other),
    }
}

#[test]
fn accumulator_absorbs_prefixes_in_order() {
    let mut acc = DigestAccumulator::new();
    acc.update(&vec![1, 2, 3], 2);
    acc.update(&vec![4, 9], 1);
    assert_eq!(acc.finalize(), direct_sha3(&[1, 2, 4]));

    // Order matters: swapping bytes changes the digest.
    let mut other = DigestAccumulator::new();
    other.update(&vec![2, 1, 4], 3);
    assert_ne!(other.finalize(), direct_sha3(&[1, 2, 4]));
}

#[test]
fn hex_rendering() {
    assert_eq!(hex_bytes(&vec![0x00, 0x0f, 0xa5]), b"000fa5".to_vec());
    assert_eq!(hex_bytes(&Vec::new()), Vec::<u8>::new());
    let digest = direct_sha3(b"abc");
    assert_eq!(hex_bytes(&digest).len(), 64);
}
