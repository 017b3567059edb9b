//! Cache store: the state of one named, persistent cache directory for
//! the duration of one build — its metadata record as read at open, and
//! the single durability point, `commit`.
//!
//! The store itself holds no file handles: the caller reads the record
//! bytes at the well-known path before `open` and writes the bytes that
//! `commit` returns back to that path. Until those bytes are written,
//! the next build observes the old (or absent) record, so partial
//! artifact writes stay invisible to the invalidation logic.

use vstd::prelude::*;
use vstd::slice::slice_to_vec;
use crate::fingerprint::Fingerprint;
use crate::metadata::{
    CacheMetadata, MetadataView, decode_record, encode_record, lemma_record_round_trip,
    record_decoding, record_encoding,
};

verus! {

/// One step's cache directory and the metadata that was stored beside it.
/// Two independent stores never share a directory: each step opens its
/// own stable name.
pub struct CacheStore {
    pub name: Vec<u8>,
    pub metadata: Option<CacheMetadata>,
}

impl CacheStore {
    /// The ghost value of the stored record, if one is held.
    pub open spec fn metadata_view(&self) -> Option<MetadataView> {
        match self.metadata {
            Some(m) => Some(m@),
            None => None,
        }
    }

    pub open spec fn wf(&self) -> bool {
        self.metadata matches Some(m) ==> m.wf()
    }

    /// Opens the store for one build. `raw` is the metadata record read
    /// from the well-known path inside the directory, or `None` when no
    /// record exists there. A record that does not decode is treated as
    /// absent — corruption forces Recreate, it never fails the build.
    pub fn open(name: Vec<u8>, raw: Option<Vec<u8>>) -> (s: CacheStore)
        ensures
            s.name == name,
            match raw {
                Some(r) => s.metadata_view() == record_decoding(r@),
                None => s.metadata is None,
            },
            s.wf(),
    {
        let metadata = match &raw {
            Some(r) => decode_record(r),
            None => None,
        };
        CacheStore { name, metadata }
    }

    /// The record loaded at open, or committed since.
    pub fn current_metadata(&self) -> (r: Option<&CacheMetadata>)
        ensures
            r is Some <==> self.metadata is Some,
            r matches Some(m) ==> self.metadata matches Some(held) && *m == held,
    {
        self.metadata.as_ref()
    }

    /// Commits new metadata after the regenerating command has succeeded:
    /// replaces the held record and returns the serialized bytes that the
    /// caller must write (atomically) to the record path. Reading those
    /// bytes back yields exactly the committed record.
    pub fn commit(
        &mut self,
        current: &Fingerprint,
        step_identity: &Vec<u8>,
        now: u64,
    ) -> (raw: Vec<u8>)
        requires
            current.wf(),
        ensures
            final(self).name == old(self).name,
            final(self).metadata_view() == Some(
                MetadataView {
                    fingerprint: current.bytes@,
                    created_at: now,
                    step_identity: step_identity@,
                },
            ),
            final(self).wf(),
            raw@ == record_encoding(
                MetadataView {
                    fingerprint: current.bytes@,
                    created_at: now,
                    step_identity: step_identity@,
                },
            ),
            record_decoding(raw@) == final(self).metadata_view(),
    {
        let m = CacheMetadata {
            fingerprint: slice_to_vec(current.bytes.as_slice()),
            created_at: now,
            step_identity: slice_to_vec(step_identity.as_slice()),
        };
        let raw = encode_record(&m);
        proof {
            lemma_record_round_trip(m@);
        }
        self.metadata = Some(m);
        raw
    }
}

/// Law: commit is the durability point. A record committed for a
/// fingerprint and identity, written out and read back by the next
/// build, resolves to Keep for the unchanged fingerprint and identity;
/// a build interrupted before commit leaves no record, and an absent
/// record resolves to Recreate.
pub proof fn lemma_commit_durable(m: MetadataView)
    requires
        m.fingerprint.len() == 32,
    ensures
        crate::strategy::decision_of(
            m.fingerprint,
            record_decoding(record_encoding(m)),
            m.step_identity,
        ) == crate::strategy::CacheDecision::Keep,
        crate::strategy::decision_of(m.fingerprint, None, m.step_identity)
            == crate::strategy::CacheDecision::Recreate,
{
    lemma_record_round_trip(m);
}

} // verus!
