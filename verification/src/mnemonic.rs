//! BIP 39 mnemonic phrases, and the seeds that come from them.

use crate::fingerprint;
use crate::fingerprint::SeedFingerprint;
use vstd::prelude::*;

verus! {

/// The normal form of a mnemonic phrase, with its words separated by single spaces.
pub uninterp spec fn mnemonic_of(phrase: Seq<char>) -> Result<Seq<char>, bip0039::Error>;

/// The seed of a mnemonic phrase, without a passphrase.
pub uninterp spec fn mnemonic_seed(phrase: Seq<char>) -> Seq<u8>;

/// The mnemonic phrase that zcashd derives from a legacy seed of 32 bytes.
pub uninterp spec fn derived_phrase(legacy_seed: Seq<u8>) -> Seq<char>;

/// Calls `bip0039::Mnemonic::from_phrase` for the English word list, which reads a phrase, and
/// `into_phrase`, which gives its normal form. Both the normal form and the failure are determined
/// by the phrase, and the normal form is its own normal form.
#[verifier::external_body]
fn read_phrase(phrase: &str) -> (r: Result<String, bip0039::Error>)
    ensures
        mnemonic_of(phrase@) == (match r {
            Ok(normal) => Ok(normal@),
            Err(e) => Err(e),
        }),
        r is Ok ==> mnemonic_of(r->Ok_0@) == mnemonic_of(phrase@),
{
    bip0039::Mnemonic::<bip0039::English>::from_phrase(phrase).map(|m| m.into_phrase())
}

/// Calls `bip0039::Mnemonic::to_seed` with an empty passphrase. The seed is determined by the
/// phrase.
#[verifier::external_body]
fn phrase_seed(phrase: &str) -> (r: [u8; 64])
    requires
        mnemonic_of(phrase@) is Ok,
    ensures
        r@ == mnemonic_seed(phrase@),
{
    bip0039::Mnemonic::<bip0039::English>::from_phrase(phrase).expect("read before").to_seed("")
}

/// Calls `zcash_keys::keys::zcashd::derive_mnemonic`, which takes a legacy seed as the entropy of a
/// mnemonic. It succeeds exactly for seeds of 32 bytes, with a phrase that is determined by the
/// seed and that reads as itself.
#[verifier::external_body]
fn derive_phrase(legacy_seed: &[u8]) -> (r: Option<String>)
    ensures
        r is Some <==> legacy_seed@.len() == 32,
        r is Some ==> r.unwrap()@ == derived_phrase(legacy_seed@),
        r matches Some(phrase) ==> (mnemonic_of(phrase@) matches Ok(normal) && normal == phrase@),
{
    let legacy_seed = secrecy::SecretVec::new(legacy_seed.to_vec());
    zcash_keys::keys::zcashd::derive_mnemonic(&legacy_seed).map(|m| m.into_phrase())
}

/// A mnemonic phrase in normal form.
pub struct Mnemonic {
    phrase: String,
}

impl View for Mnemonic {
    type V = Seq<char>;

    closed spec fn view(&self) -> Seq<char> {
        self.phrase@
    }
}

impl Mnemonic {
    /// The phrase reads as itself.
    #[verifier::type_invariant]
    spec fn is_normal(self) -> bool {
        mnemonic_of(self.phrase@) matches Ok(normal) && normal == self.phrase@
    }

    /// The phrase.
    pub fn phrase(&self) -> (r: &str)
        ensures
            r@ == self@,
            mnemonic_of(self@) matches Ok(normal) && normal == self@,
    {
        proof {
            use_type_invariant(self);
        }
        self.phrase.as_str()
    }

    /// The seed of the phrase, without a passphrase.
    pub fn to_seed(&self) -> (r: [u8; 64])
        ensures
            r@ == mnemonic_seed(self@),
    {
        phrase_seed(self.phrase())
    }

    /// The fingerprint of the seed of the phrase.
    pub fn seed_fingerprint(&self) -> (r: SeedFingerprint)
        ensures
            r@ == fingerprint::fingerprint_of(mnemonic_seed(self@)),
    {
        let seed = self.to_seed();
        SeedFingerprint::from_seed(seed.as_slice()).unwrap()
    }
}

/// Reads the mnemonic phrase of a wallet; an empty text means that the wallet has none.
pub fn parse_mnemonic(mnemonic: &str) -> (r: Result<Option<Mnemonic>, bip0039::Error>)
    ensures
        r matches Ok(None) <==> mnemonic@.len() == 0,
        r matches Ok(Some(m)) ==> mnemonic_of(mnemonic@) matches Ok(normal) && normal == m@,
        r matches Err(e) ==> mnemonic_of(mnemonic@) matches Err(why) && why == e,
{
    if mnemonic.is_empty() {
        return Ok(None);
    }
    match read_phrase(mnemonic) {
        Ok(phrase) => Ok(Some(Mnemonic { phrase })),
        Err(e) => Err(e),
    }
}

/// Derives a mnemonic from a legacy seed as zcashd does, with the seed as its entropy.
pub fn derive_mnemonic(legacy_seed: &[u8]) -> (r: Option<Mnemonic>)
    ensures
        r is Some <==> legacy_seed@.len() == 32,
        r is Some ==> r.unwrap()@ == derived_phrase(legacy_seed@),
{
    match derive_phrase(legacy_seed) {
        Some(phrase) => Some(Mnemonic { phrase }),
        None => None,
    }
}

} // verus!
