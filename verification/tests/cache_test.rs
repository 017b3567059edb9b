use buildpack_core::cache::CacheStore;
use buildpack_core::fingerprint::{fingerprint, Fingerprint, InputSource, NamedInput};
use buildpack_core::metadata::{decode_record, encode_record, CacheMetadata};
use buildpack_core::pipeline::open_and_resolve;
use buildpack_core::strategy::{resolve, CacheDecision};

fn fp(seed: u8) -> Fingerprint {
    let inputs = vec![NamedInput {
        name: b"seed".to_vec(),
        source: InputSource::Present(vec![seed]),
    }];
    fingerprint(&inputs)
}

#[test]
fn record_codec_round_trips() {
    let m = CacheMetadata {
        fingerprint: fp(1).bytes,
        created_at: 1_700_000_000,
        step_identity: b"ruby-3.1.2".to_vec(),
    };
    let raw = encode_record(&m);
    let back = decode_record(&raw).expect("a committed record must read back");
    assert_eq!(back.fingerprint, m.fingerprint);
    assert_eq!(back.created_at, m.created_at);
    assert_eq!(back.step_identity, m.step_identity);
}

#[test]
fn truncated_or_garbled_record_decodes_to_none() {
    let m = CacheMetadata {
        fingerprint: fp(2).bytes,
        created_at: 42,
        step_identity: b"id".to_vec(),
    };
    let raw = encode_record(&m);

    let mut truncated = raw.clone();
    truncated.truncate(10);
    assert!(decode_record(&truncated).is_none());

    let mut garbled = raw.clone();
    garbled[64] = b'x';
    assert!(decode_record(&garbled).is_none());

    let mut bad_hex = raw;
    bad_hex[0] = b'G';
    assert!(decode_record(&bad_hex).is_none());

    assert!(decode_record(&Vec::new()).is_none());
}

#[test]
fn corrupt_record_resolves_to_recreate_not_error() {
    let current = fp(3);
    let identity = b"ruby-3.1.2".to_vec();
    let corrupt = b"not a record at all".to_vec();
    let (store, decision) =
        open_and_resolve(b"gems".to_vec(), Some(corrupt), &current, &identity);
    assert!(store.current_metadata().is_none());
    assert_eq!(decision, CacheDecision::Recreate);
}

#[test]
fn strategy_table() {
    let current = fp(4);
    let identity = b"tool-v1".to_vec();
    let drifted = b"tool-v2".to_vec();

    // No stored metadata, any fingerprint: Recreate.
    assert_eq!(resolve(&current, None, &identity), CacheDecision::Recreate);

    let matching = CacheMetadata {
        fingerprint: current.bytes.clone(),
        created_at: 7,
        step_identity: identity.clone(),
    };
    // Same fingerprint, no identity drift: Keep.
    assert_eq!(
        resolve(&current, Some(&matching), &identity),
        CacheDecision::Keep
    );
    // Same fingerprint, identity drift: Update.
    assert_eq!(
        resolve(&current, Some(&matching), &drifted),
        CacheDecision::Update
    );

    let stale = CacheMetadata {
        fingerprint: fp(5).bytes,
        created_at: 7,
        step_identity: identity.clone(),
    };
    // Different fingerprint: Recreate.
    assert_eq!(
        resolve(&current, Some(&stale), &identity),
        CacheDecision::Recreate
    );
}

#[test]
fn record_round_trips_with_awkward_identity() {
    // The identity is the record's tail, so embedded newlines survive.
    let m = CacheMetadata {
        fingerprint: fp(9).bytes,
        created_at: u64::MAX,
        step_identity: b"a\nb\n".to_vec(),
    };
    let raw = encode_record(&m);
    let back = decode_record(&raw).expect("record with newline identity reads back");
    assert_eq!(back.step_identity, m.step_identity);
    assert_eq!(back.created_at, u64::MAX);
}

#[test]
fn identity_drift_resolves_to_update_through_record_bytes() {
    let current = fp(7);
    let old_identity = b"ruby-3.0.0".to_vec();
    let new_identity = b"ruby-3.1.2".to_vec();

    let mut store = CacheStore::open(b"gems".to_vec(), None);
    let raw = store.commit(&current, &old_identity, 50);

    // Same fingerprint next build, but the identity drifted.
    let (_reopened, decision) =
        open_and_resolve(b"gems".to_vec(), Some(raw), &current, &new_identity);
    assert_eq!(decision, CacheDecision::Update);
}

#[test]
fn commit_is_durable_and_skipping_it_recreates() {
    let current = fp(6);
    let identity = b"ruby-3.1.2".to_vec();

    // First build: empty directory, no record.
    let mut store = CacheStore::open(b"gems".to_vec(), None);
    assert_eq!(
        resolve(&current, store.current_metadata(), &identity),
        CacheDecision::Recreate
    );

    // The regenerating command succeeded; commit and persist.
    let raw = store.commit(&current, &identity, 123);

    // Next build, record written: unchanged inputs resolve to Keep.
    let reopened = CacheStore::open(b"gems".to_vec(), Some(raw));
    assert_eq!(
        resolve(&current, reopened.current_metadata(), &identity),
        CacheDecision::Keep
    );
    let held = reopened.current_metadata().expect("record must be loaded");
    assert_eq!(held.fingerprint, current.bytes);
    assert_eq!(held.created_at, 123);
    assert_eq!(held.step_identity, identity);

    // Interrupted before commit: the next build sees no record and
    // recomputes.
    let interrupted = CacheStore::open(b"gems".to_vec(), None);
    assert_eq!(
        resolve(&current, interrupted.current_metadata(), &identity),
        CacheDecision::Recreate
    );
}
