//! Cache strategy resolver: compares a freshly computed fingerprint
//! against the stored metadata record and decides whether the cached
//! artifact is reused unchanged, reused with refreshed metadata, or
//! discarded and rebuilt.

use vstd::prelude::*;
use crate::fingerprint::Fingerprint;
use crate::metadata::{CacheMetadata, MetadataView, record_decoding};

verus! {

/// What happens to a cached artifact this build.
#[derive(Clone, Copy, Debug, PartialEq, Eq, Structural)]
pub enum CacheDecision {
    /// Fingerprints match and the step identity is unchanged: reuse the
    /// contents, touch nothing.
    Keep,
    /// Fingerprints match but the step identity drifted: reuse the
    /// contents, run the regenerating command once more and rewrite the
    /// metadata.
    Update,
    /// No usable metadata, or the fingerprint changed: clear the
    /// directory and rebuild from empty.
    Recreate,
}

/// The decision owed for a current fingerprint, a stored record (if one
/// was readable) and the current step identity.
pub open spec fn decision_of(
    current: Seq<u8>,
    stored: Option<MetadataView>,
    identity: Seq<u8>,
) -> CacheDecision {
    match stored {
        None => CacheDecision::Recreate,
        Some(m) => if m.fingerprint != current {
            CacheDecision::Recreate
        } else if m.step_identity == identity {
            CacheDecision::Keep
        } else {
            CacheDecision::Update
        },
    }
}

/// The ghost value of an optional stored record.
pub open spec fn stored_view(stored: Option<&CacheMetadata>) -> Option<MetadataView> {
    match stored {
        Some(m) => Some(m@),
        None => None,
    }
}

/// Resolves the strategy for one step: no stored record forces Recreate;
/// a fingerprint mismatch forces Recreate; matching fingerprints give
/// Keep, or Update when the step identity drifted independently of the
/// fingerprinted inputs.
pub fn resolve(
    current: &Fingerprint,
    stored: Option<&CacheMetadata>,
    current_identity: &Vec<u8>,
) -> (d: CacheDecision)
    ensures
        d == decision_of(current.bytes@, stored_view(stored), current_identity@),
        stored is None ==> d == CacheDecision::Recreate,
        stored matches Some(m) && m.fingerprint@ != current.bytes@ ==> d
            == CacheDecision::Recreate,
        stored matches Some(m) && m.fingerprint@ == current.bytes@ && m.step_identity@
            == current_identity@ ==> d == CacheDecision::Keep,
        stored matches Some(m) && m.fingerprint@ == current.bytes@ && m.step_identity@
            != current_identity@ ==> d == CacheDecision::Update,
{
    match stored {
        None => CacheDecision::Recreate,
        Some(m) => {
            if !crate::fingerprint::bytes_eq(&m.fingerprint, &current.bytes) {
                CacheDecision::Recreate
            } else if crate::fingerprint::bytes_eq(&m.step_identity, current_identity) {
                CacheDecision::Keep
            } else {
                CacheDecision::Update
            }
        },
    }
}

/// Law: cache corruption never blocks a build. Raw record bytes that do
/// not decode — truncated, garbled, empty — load as an absent record, and
/// an absent record resolves to Recreate, whatever the current
/// fingerprint and identity are.
pub proof fn lemma_corrupt_record_recreates(raw: Seq<u8>, current: Seq<u8>, identity: Seq<u8>)
    requires
        record_decoding(raw) is None,
    ensures
        decision_of(current, record_decoding(raw), identity) == CacheDecision::Recreate,
{
}

} // verus!
