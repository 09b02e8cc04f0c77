//! The standalone transparent spending keys of a zcashd wallet.

use crate::error;
use crate::error::{Message, MigrateError};
use crate::transparent;
use crate::transparent::PublicKey;
use vstd::prelude::*;

verus! {

/// A transparent key of a zcashd wallet: its public key as it is written there, and the DER
/// encoding of its private key.
#[derive(Debug)]
pub struct KeyPair {
    pub pubkey: Vec<u8>,
    pub privkey: Vec<u8>,
}

/// A transparent spending key, and whether its public key is used in compressed form.
#[derive(Clone, Copy, Debug)]
pub struct TransparentKey {
    pub secret: [u8; 32],
    pub compressed: bool,
}

/// The secret that the DER encoding of a private key holds.
pub uninterp spec fn der_secret(encoded: Seq<u8>) -> Option<Seq<u8>>;

/// An encoding that ends within the version number of the private key, after a header that
/// promises no more than there is. The decoder has no answer for such an encoding.
pub open spec fn der_ends_in_version(encoded: Seq<u8>) -> bool {
    ||| {
        &&& 3 <= encoded.len() < 6
        &&& encoded[0] == 0x30
        &&& encoded[1] == 0x81
        &&& encoded[2] <= encoded.len() - 3
    }
    ||| {
        &&& 4 <= encoded.len() < 7
        &&& encoded[0] == 0x30
        &&& encoded[1] == 0x82
        &&& encoded[2] == 0
        &&& encoded[3] <= encoded.len() - 4
    }
}

/// Whether the encoding of a private key ends within its version number.
pub fn ends_in_version(encoded: &[u8]) -> (r: bool)
    ensures
        r == der_ends_in_version(encoded@),
{
    let n: usize = encoded.len();
    if 3 <= n && n < 6 && encoded[0] == 0x30 && encoded[1] == 0x81 && encoded[2] as usize <= n - 3 {
        return true;
    }
    4 <= n && n < 7 && encoded[0] == 0x30 && encoded[1] == 0x82 && encoded[2] == 0
        && encoded[3] as usize <= n - 4
}

/// Calls `zcash_keys::keys::transparent::Key::der_decode`. The secret that it finds, or that it
/// finds none, is determined by the encoding; it keeps the flag that it is given. It panics on an
/// encoding that ends within the version number.
#[verifier::external_body]
fn der_decode(encoded: &[u8], compressed: bool) -> (r: Option<TransparentKey>)
    requires
        !der_ends_in_version(encoded@),
    ensures
        der_secret(encoded@) == (match r {
            Some(key) => Some(key.secret@),
            None => None,
        }),
        r is Some ==> r.unwrap().compressed == compressed,
{
    let encoded = secrecy::SecretVec::new(encoded.to_vec());
    zcash_keys::keys::transparent::Key::der_decode(&encoded, compressed).ok().map(
        |key| TransparentKey {
            secret: key.secret().to_secret_bytes(),
            compressed: key.compressed(),
        },
    )
}

/// The failure to decode a private key.
pub open spec fn der_failure() -> error::MessageModel {
    error::with_text("err-migrate-wallet-key-decoding"@, "err"@, "failed DER decoding"@)
}

/// Whether `r` is what a key is converted to, when its public key reads as `read` says and its
/// private key decodes as `secret` says.
pub open spec fn converts(
    pubkey: Seq<u8>,
    read: Result<Seq<u8>, secp256k1::Error>,
    secret: Option<Seq<u8>>,
    r: Result<TransparentKey, MigrateError>,
) -> bool {
    match read {
        Err(e) => r == Err::<TransparentKey, MigrateError>(MigrateError::KeyError(e)),
        Ok(_) => match secret {
            None => r matches Err(e) && error::raises(e, der_failure()),
            Some(bytes) => r matches Ok(key) && key.secret@ == bytes && key.compressed == (
            pubkey.len() == 33),
        },
    }
}

/// The key that a public key, read as `read` says, and a decoded private key make.
pub fn assemble_key(
    read: Result<PublicKey, secp256k1::Error>,
    decoded: Option<TransparentKey>,
) -> (r: Result<TransparentKey, MigrateError>)
    ensures
        match read {
            Err(e) => r == Err::<TransparentKey, MigrateError>(MigrateError::KeyError(e)),
            Ok(_) => match decoded {
                None => r matches Err(e) && error::raises(e, der_failure()),
                Some(key) => r == Ok::<TransparentKey, MigrateError>(key),
            },
        },
{
    match read {
        Err(e) => Err(MigrateError::from(e)),
        Ok(_) => match decoded {
            None => Err(
                MigrateError::raise(
                    Message::with_text(
                        "err-migrate-wallet-key-decoding",
                        "err",
                        "failed DER decoding".to_owned(),
                    ),
                ),
            ),
            Some(key) => Ok(key),
        },
    }
}

/// Whether the decoder has an answer for the key, or is not asked.
pub open spec fn is_convertible(key: KeyPair) -> bool {
    transparent::public_key_of(key.pubkey@) is Ok ==> !der_ends_in_version(key.privkey@)
}

/// Whether a key can be converted: its public key cannot be read, so that the private key is not
/// looked at, or the private key does not end within its version number.
pub fn can_convert(key: &KeyPair) -> (r: bool)
    ensures
        r == is_convertible(*key),
{
    PublicKey::from_slice(key.pubkey.as_slice()).is_err() || !ends_in_version(
        key.privkey.as_slice(),
    )
}

/// Converts a key of a zcashd wallet: checks that its public key can be read, and decodes its
/// private key. The encodings for which the decoder has no answer are left out.
pub fn convert_key(key: &KeyPair) -> (r: Result<TransparentKey, MigrateError>)
    requires
        is_convertible(*key),
    ensures
        converts(
            key.pubkey@,
            transparent::public_key_of(key.pubkey@),
            der_secret(key.privkey@),
            r,
        ),
{
    let read = PublicKey::from_slice(key.pubkey.as_slice());
    if read.is_err() {
        return assemble_key(read, None);
    }
    let decoded = der_decode(key.privkey.as_slice(), key.pubkey.len() == 33);
    assemble_key(read, decoded)
}

/// Converts a key of a zcashd wallet, or gives nothing where the decoder has no answer for it.
pub fn convert_key_if_possible(key: &KeyPair) -> (r: Option<Result<TransparentKey, MigrateError>>)
    ensures
        r is Some <==> is_convertible(*key),
        r is Some ==> converts(
            key.pubkey@,
            transparent::public_key_of(key.pubkey@),
            der_secret(key.privkey@),
            r.unwrap(),
        ),
{
    if can_convert(key) {
        Some(convert_key(key))
    } else {
        None
    }
}

} // verus!
