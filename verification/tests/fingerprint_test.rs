use buildpack_core::fingerprint::{fingerprint, InputSource, NamedInput};
use buildpack_core::hex::{hex_decode, hex_encode};
use sha2::Digest;

fn present(name: &[u8], content: &[u8]) -> NamedInput {
    NamedInput {
        name: name.to_vec(),
        source: InputSource::Present(content.to_vec()),
    }
}

fn absent(name: &[u8]) -> NamedInput {
    NamedInput {
        name: name.to_vec(),
        source: InputSource::Absent,
    }
}

#[test]
fn fingerprint_is_deterministic() {
    let inputs = vec![
        present(b"Gemfile.lock", b"gem 'rake'\n"),
        present(b"BUNDLE_WITHOUT", b"development:test"),
        absent(b".ruby-version"),
    ];
    let again = vec![
        present(b"Gemfile.lock", b"gem 'rake'\n"),
        present(b"BUNDLE_WITHOUT", b"development:test"),
        absent(b".ruby-version"),
    ];
    let a = fingerprint(&inputs);
    let b = fingerprint(&again);
    assert_eq!(a.bytes, b.bytes);
    assert!(a.same_as(&b));
    assert_eq!(a.bytes.len(), 32);
}

#[test]
fn fingerprint_changes_with_any_byte() {
    let base = vec![present(b"Gemfile.lock", b"gem 'rake'\n")];
    let one_byte_off = vec![present(b"Gemfile.lock", b"gem 'rakf'\n")];
    let renamed = vec![present(b"Gemfile.lok", b"gem 'rake'\n")];
    let a = fingerprint(&base);
    let b = fingerprint(&one_byte_off);
    let c = fingerprint(&renamed);
    assert_ne!(a.bytes, b.bytes);
    assert_ne!(a.bytes, c.bytes);
    assert_ne!(b.bytes, c.bytes);
}

#[test]
fn fingerprint_corpus_has_no_collision() {
    let corpus = vec![
        vec![present(b"a", b"")],
        vec![present(b"a", b"x")],
        vec![absent(b"a")],
        vec![present(b"ab", b"c")],
        vec![present(b"a", b"bc")],
        vec![present(b"a", b"b"), present(b"c", b"")],
        vec![],
    ];
    let digests: Vec<Vec<u8>> = corpus.iter().map(|c| fingerprint(c).bytes).collect();
    for i in 0..digests.len() {
        for j in 0..digests.len() {
            if i != j {
                assert_ne!(digests[i], digests[j]);
            }
        }
    }
}

#[test]
fn absent_input_differs_from_empty_content() {
    let declared_missing = vec![absent(b"Gemfile.lock")];
    let empty_file = vec![present(b"Gemfile.lock", b"")];
    let a = fingerprint(&declared_missing);
    let b = fingerprint(&empty_file);
    assert_ne!(a.bytes, b.bytes);
}

#[test]
fn fingerprint_matches_direct_sha256_of_canonical_encoding() {
    let inputs = vec![present(b"name", b"abc"), absent(b"gone")];
    let got = fingerprint(&inputs);

    let mut encoding: Vec<u8> = Vec::new();
    encoding.extend_from_slice(b"name");
    encoding.push(0);
    encoding.push(1);
    encoding.extend_from_slice(&3u64.to_le_bytes());
    encoding.extend_from_slice(b"abc");
    encoding.extend_from_slice(b"gone");
    encoding.push(0);
    encoding.push(2);
    let expected = sha2::Sha256::digest(&encoding).to_vec();

    assert_eq!(got.bytes, expected);
}

#[test]
fn hex_round_trip_and_rejects() {
    let bytes = vec![0x00u8, 0x1f, 0xa5, 0xff];
    let digits = hex_encode(&bytes);
    assert_eq!(digits, b"001fa5ff".to_vec());
    assert_eq!(hex_decode(&digits), Some(bytes));
    assert_eq!(hex_decode(&b"abc".to_vec()), None);
    assert_eq!(hex_decode(&b"0G".to_vec()), None);
    assert_eq!(hex_decode(&b"0A".to_vec()), None);
    assert_eq!(hex_decode(&Vec::new()), Some(Vec::new()));
}
