//! The cache metadata record: the fingerprint, the step identity and the
//! creation time that are persisted beside a cache directory, together
//! with the byte codec that writes and reads the record.
//!
//! Decoding is total over byte strings: a truncated or otherwise
//! unparseable record decodes to `None` and is treated by the cache store
//! as an absent record, never as an error.

use vstd::prelude::*;
use vstd::bytes::{spec_u64_from_le_bytes, spec_u64_to_le_bytes, u64_from_le_bytes, u64_to_le_bytes};
use vstd::slice::{slice_subrange, slice_to_vec};
use crate::hex::{hex_decode, hex_decoding, hex_encode, hex_encoding, lemma_hex_round_trip};

verus! {

/// Metadata persisted alongside one cache directory: the fingerprint of
/// the inputs the cached artifact was built from, the moment it was
/// committed, and the identity of the step that owns it.
pub struct CacheMetadata {
    pub fingerprint: Vec<u8>,
    pub created_at: u64,
    pub step_identity: Vec<u8>,
}

/// The ghost value of a metadata record.
pub struct MetadataView {
    pub fingerprint: Seq<u8>,
    pub created_at: u64,
    pub step_identity: Seq<u8>,
}

impl View for CacheMetadata {
    type V = MetadataView;

    open spec fn view(&self) -> MetadataView {
        MetadataView {
            fingerprint: self.fingerprint@,
            created_at: self.created_at,
            step_identity: self.step_identity@,
        }
    }
}

impl CacheMetadata {
    /// A well-formed record carries a full 32-byte digest.
    pub open spec fn wf(&self) -> bool {
        self.fingerprint@.len() == 32
    }
}

/// The serialized form of a metadata record: 64 hex digits of the
/// fingerprint, a newline, the creation time (8 bytes, little endian), a
/// newline, then the step identity.
pub open spec fn record_encoding(m: MetadataView) -> Seq<u8> {
    hex_encoding(m.fingerprint) + seq![10u8] + spec_u64_to_le_bytes(m.created_at) + seq![10u8]
        + m.step_identity
}

/// The record read back from raw bytes, or `None` when the bytes do not
/// hold a well-formed record. Total: no byte string is an error.
pub open spec fn record_decoding(raw: Seq<u8>) -> Option<MetadataView> {
    if raw.len() < 74 {
        None
    } else if raw[64] != 10u8 || raw[73] != 10u8 {
        None
    } else {
        match hex_decoding(raw.subrange(0, 64)) {
            Some(fp) => Some(
                MetadataView {
                    fingerprint: fp,
                    created_at: spec_u64_from_le_bytes(raw.subrange(65, 73)),
                    step_identity: raw.skip(74),
                },
            ),
            None => None,
        }
    }
}

/// Law: commit is durable. A well-formed record read back from its own
/// serialization is the record that was written — nothing is lost or
/// altered between a commit and the next build's read.
pub proof fn lemma_record_round_trip(m: MetadataView)
    requires
        m.fingerprint.len() == 32,
    ensures
        record_decoding(record_encoding(m)) == Some(m),
{
    lemma_hex_round_trip(m.fingerprint);
    vstd::bytes::lemma_auto_spec_u64_to_from_le_bytes();
    let raw = record_encoding(m);
    let hexpart = hex_encoding(m.fingerprint);
    let ts = spec_u64_to_le_bytes(m.created_at);
    assert(hexpart.len() == 64);
    assert(ts.len() == 8);
    assert(raw.len() == 74 + m.step_identity.len());
    assert(raw[64] == 10u8);
    assert(raw[73] == 10u8);
    assert(raw.subrange(0, 64) =~= hexpart);
    assert(raw.subrange(65, 73) =~= ts);
    assert(raw.skip(74) =~= m.step_identity);
    assert(record_decoding(raw) == Some(
        MetadataView {
            fingerprint: m.fingerprint,
            created_at: m.created_at,
            step_identity: m.step_identity,
        },
    ));
    assert(MetadataView {
        fingerprint: m.fingerprint,
        created_at: m.created_at,
        step_identity: m.step_identity,
    } == m);
}

/// Serializes a metadata record.
pub fn encode_record(m: &CacheMetadata) -> (r: Vec<u8>)
    requires
        m.wf(),
    ensures
        r@ == record_encoding(m@),
{
    let mut out = hex_encode(&m.fingerprint);
    out.push(10u8);
    let ts = u64_to_le_bytes(m.created_at);
    crate::fingerprint::push_bytes(&mut out, &ts);
    out.push(10u8);
    crate::fingerprint::push_bytes(&mut out, &m.step_identity);
    proof {
        assert(out@ =~= record_encoding(m@));
    }
    out
}

/// Reads a metadata record back from raw bytes; `None` when the bytes are
/// truncated or unparseable.
pub fn decode_record(raw: &Vec<u8>) -> (r: Option<CacheMetadata>)
    ensures
        match r {
            Some(m) => record_decoding(raw@) == Some(m@) && m.wf(),
            None => record_decoding(raw@) is None,
        },
{
    if raw.len() < 74 {
        return None;
    }
    if raw[64] != 10u8 || raw[73] != 10u8 {
        return None;
    }
    let hexpart = slice_to_vec(slice_subrange(raw.as_slice(), 0, 64));
    proof {
        assert(hexpart@ == raw@.subrange(0, 64));
    }
    match hex_decode(&hexpart) {
        Some(fp) => {
            proof {
                crate::hex::lemma_hex_decoding_len(hexpart@);
            }
            let ts_slice = slice_subrange(raw.as_slice(), 65, 73);
            let created_at = u64_from_le_bytes(ts_slice);
            let identity = slice_to_vec(slice_subrange(raw.as_slice(), 74, raw.len()));
            proof {
                assert(identity@ == raw@.skip(74));
            }
            Some(CacheMetadata { fingerprint: fp, created_at, step_identity: identity })
        },
        None => None,
    }
}

} // verus!
