//! ZIP 32 seed fingerprints.

use crate::text::bytes_equal;
use vstd::prelude::*;

verus! {

/// The fingerprint of a seed.
#[derive(Clone, Copy, Debug)]
pub struct SeedFingerprint {
    pub bytes: [u8; 32],
}

impl View for SeedFingerprint {
    type V = Seq<u8>;

    open spec fn view(&self) -> Seq<u8> {
        self.bytes@
    }
}

/// The fingerprint that ZIP 32 gives a seed; it is defined for seeds of 32 to 252 bytes.
pub uninterp spec fn fingerprint_of(seed: Seq<u8>) -> Seq<u8>;

/// The Bech32m notation of a seed fingerprint.
pub uninterp spec fn fingerprint_text(fingerprint: Seq<u8>) -> Seq<char>;

impl SeedFingerprint {
    /// Calls `zip32::fingerprint::SeedFingerprint::from_seed`, which returns a fingerprint exactly
    /// for seeds of 32 to 252 bytes. The fingerprint, a hash of the seed, is determined by the
    /// seed.
    #[verifier::external_body]
    pub(crate) fn from_seed(seed: &[u8]) -> (r: Option<SeedFingerprint>)
        ensures
            r is Some <==> 32 <= seed@.len() <= 252,
            r is Some ==> r.unwrap()@ == fingerprint_of(seed@),
    {
        zip32::fingerprint::SeedFingerprint::from_seed(seed).map(
            |fingerprint| SeedFingerprint { bytes: fingerprint.to_bytes() },
        )
    }

    /// Calls the `Display` implementation of `zip32::fingerprint::SeedFingerprint`, whose text is
    /// determined by the bytes of the fingerprint.
    #[verifier::external_body]
    pub(crate) fn to_text(&self) -> (r: String)
        ensures
            r@ == fingerprint_text(self@),
    {
        zip32::fingerprint::SeedFingerprint::from_bytes(self.bytes).to_string()
    }

    /// Whether two fingerprints are the same.
    pub fn same(&self, other: &SeedFingerprint) -> (r: bool)
        ensures
            r == (*self == *other),
            r == (self@ == other@),
    {
        let r: bool = bytes_equal(self.bytes.as_slice(), other.bytes.as_slice());
        proof {
            if self@ == other@ {
                assert(self.bytes =~= other.bytes);
            }
        }
        r
    }
}

/// Whether two optional fingerprints are the same; two that are absent are.
pub fn same_option(a: &Option<SeedFingerprint>, b: &Option<SeedFingerprint>) -> (r: bool)
    ensures
        r == (*a == *b),
{
    match (a, b) {
        (Some(x), Some(y)) => x.same(y),
        (None, None) => true,
        _ => false,
    }
}

/// A fingerprint that has the bytes of one of the others is that one.
pub proof fn bytes_settle_fingerprints(
    fingerprints: Seq<SeedFingerprint>,
    fingerprint: SeedFingerprint,
)
    ensures
        forall|i: int|
            0 <= i < fingerprints.len() && (#[trigger] fingerprints[i])@ == fingerprint@
                ==> fingerprints.contains(fingerprint),
{
    assert forall|i: int|
        0 <= i < fingerprints.len() && (#[trigger] fingerprints[i])@ == fingerprint@ implies
        fingerprints.contains(fingerprint) by {
        assert(fingerprints[i].bytes =~= fingerprint.bytes);
    }
}

/// Whether `fingerprint` is among `fingerprints`.
pub fn contains(fingerprints: &Vec<SeedFingerprint>, fingerprint: &SeedFingerprint) -> (r: bool)
    ensures
        r == fingerprints@.contains(*fingerprint),
{
    let mut i: usize = 0;
    while i < fingerprints.len()
        invariant
            i <= fingerprints@.len(),
            forall|j: int| 0 <= j < i ==> fingerprints@[j] != *fingerprint,
        decreases fingerprints@.len() - i,
    {
        if fingerprints[i].same(fingerprint) {
            return true;
        }
        i = i + 1;
    }
    false
}

} // verus!
