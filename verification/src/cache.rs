//! The cache key model and the validity check.
//!
//! An audio artifact is valid for a slide exactly when the artifact exists,
//! a cache record exists for that slide, and the record's bytes equal the
//! canonical serialization of the key freshly computed from the slide's
//! current note and the current run's configuration.  Validity is never
//! assumed from artifact existence alone.

use vstd::prelude::*;

use crate::codec::push_bytes;
use crate::codec::spec_cache_record;
use crate::codec::text_bytes;
use crate::codec::u64_le;

verus! {

/// The synthesis configuration, as the canonical bytes of its stable
/// serialized form.  The configuration is opaque to this library: the caller
/// canonicalizes the provider-specific value once per batch, and the cache
/// logic only ever compares these bytes.
#[derive(Debug)]
pub struct SynthesisConfig {
    pub canonical: Vec<u8>,
}

impl Clone for SynthesisConfig {
    fn clone(&self) -> (r: Self)
        ensures
            r@ == self@,
    {
        SynthesisConfig { canonical: crate::codec::clone_bytes(&self.canonical) }
    }
}

impl View for SynthesisConfig {
    type V = Seq<u8>;

    open spec fn view(&self) -> Seq<u8> {
        self.canonical@
    }
}

/// What would be generated for a slide: its note text and the run's
/// synthesis configuration.  Two keys are equal exactly when their
/// serialized forms are byte-identical.
#[derive(Clone, Debug)]
pub struct CacheKey {
    pub text: String,
    pub config: SynthesisConfig,
}

impl CacheKey {
    /// The canonical serialized form of this key.
    pub open spec fn spec_bytes(&self) -> Seq<u8> {
        spec_cache_record(self.text@, self.config@)
    }
}

/// Serializes a cache key into its canonical record bytes.
pub fn serialize_cache_key(key: &CacheKey) -> (r: Vec<u8>)
    ensures
        r@ == key.spec_bytes(),
{
    let text_len = key.text.unicode_len();
    let mut r = u64_le(text_len as u64);
    let tb = text_bytes(key.text.as_str());
    push_bytes(&mut r, &tb);
    let cl = u64_le(key.config.canonical.len() as u64);
    push_bytes(&mut r, &cl);
    push_bytes(&mut r, &key.config.canonical);
    proof {
        assert(r@ =~= key.spec_bytes());
    }
    r
}

/// Whether two byte strings are identical.
pub fn bytes_equal(a: &Vec<u8>, b: &Vec<u8>) -> (r: bool)
    ensures
        r == (a@ == b@),
{
    if a.len() != b.len() {
        return false;
    }
    let mut i: usize = 0;
    while i < a.len()
        invariant
            a@.len() == b@.len(),
            i <= a@.len(),
            forall|j: int| 0 <= j < i ==> a@[j] == b@[j],
        decreases a@.len() - i,
    {
        if a[i] != b[i] {
            return false;
        }
        i = i + 1;
    }
    proof {
        assert(a@ =~= b@);
    }
    true
}

/// Whether a persisted record makes the artifact valid for `key`: the
/// artifact must exist and the record must be present with bytes identical
/// to the canonical serialization of `key`.  A missing, partial or stale
/// record loses against artifact presence: the slide must regenerate.
pub fn is_cached(artifact_exists: bool, record: &Option<Vec<u8>>, key: &CacheKey) -> (r: bool)
    ensures
        r == (artifact_exists && (record matches Some(rec) && rec@ == key.spec_bytes())),
{
    if !artifact_exists {
        return false;
    }
    match record {
        None => false,
        Some(rec) => {
            let fresh = serialize_cache_key(key);
            bytes_equal(rec, &fresh)
        },
    }
}

} // verus!
