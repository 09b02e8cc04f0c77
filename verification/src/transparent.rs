//! Transparent keys, scripts and addresses.

use crate::text::bytes_equal;
use vstd::prelude::*;
use vstd::slice::slice_to_vec;
use zcash_script::script::Evaluable;

verus! {

/// The compressed form of the public key that a byte string encodes.
pub uninterp spec fn public_key_of(encoded: Seq<u8>) -> Result<Seq<u8>, secp256k1::Error>;

/// Calls `secp256k1::PublicKey::from_slice`, which reads an encoded public key, and `serialize`,
/// which writes it in compressed form. Only strings of 33 bytes (compressed) and of 65 bytes
/// (uncompressed) encode a key. A key that was given in compressed form is written as it was read,
/// and what is written is read as the same key.
#[verifier::external_body]
fn read_public_key(encoded: &[u8]) -> (r: Result<[u8; 33], secp256k1::Error>)
    ensures
        public_key_of(encoded@) == (match r {
            Ok(key) => Ok(key@),
            Err(e) => Err(e),
        }),
        r is Ok ==> encoded@.len() == 33 || encoded@.len() == 65,
        r is Ok ==> public_key_of(r->Ok_0@) == public_key_of(encoded@),
        r is Ok && encoded@.len() == 33 ==> r->Ok_0@ == encoded@,
{
    secp256k1::PublicKey::from_slice(encoded).map(|key| key.serialize())
}

/// A public key of a transparent address, in compressed form.
#[derive(Clone, Copy, Debug)]
pub struct PublicKey {
    bytes: [u8; 33],
}

impl View for PublicKey {
    type V = Seq<u8>;

    closed spec fn view(&self) -> Seq<u8> {
        self.bytes@
    }
}

impl PublicKey {
    /// The bytes are a public key in compressed form.
    #[verifier::type_invariant]
    spec fn is_key(self) -> bool {
        public_key_of(self.bytes@) matches Ok(key) && key == self.bytes@
    }

    /// Reads an encoded public key.
    pub fn from_slice(encoded: &[u8]) -> (r: Result<PublicKey, secp256k1::Error>)
        ensures
            public_key_of(encoded@) == (match r {
                Ok(key) => Ok(key@),
                Err(e) => Err(e),
            }),
            r is Ok ==> encoded@.len() == 33 || encoded@.len() == 65,
            r is Ok && encoded@.len() == 33 ==> r->Ok_0@ == encoded@,
    {
        match read_public_key(encoded) {
            Ok(bytes) => Ok(PublicKey { bytes }),
            Err(e) => Err(e),
        }
    }

    /// The compressed form of the key.
    pub fn serialize(&self) -> (r: [u8; 33])
        ensures
            r@ == self@,
            public_key_of(self@) matches Ok(key) && key == self@,
    {
        proof {
            use_type_invariant(self);
        }
        self.bytes
    }
}

/// A transparent address.
#[derive(Clone, Copy, Debug)]
pub enum TransparentAddress {
    PublicKeyHash([u8; 20]),
    ScriptHash([u8; 20]),
}

impl TransparentAddress {
    /// Whether two addresses are the same.
    pub fn same(&self, other: &TransparentAddress) -> (r: bool)
        ensures
            r == (*self == *other),
    {
        match (self, other) {
            (TransparentAddress::PublicKeyHash(a), TransparentAddress::PublicKeyHash(b)) => {
                let r: bool = bytes_equal(a.as_slice(), b.as_slice());
                proof {
                    if a@ == b@ {
                        assert(*a =~= *b);
                    }
                }
                r
            },
            (TransparentAddress::ScriptHash(a), TransparentAddress::ScriptHash(b)) => {
                let r: bool = bytes_equal(a.as_slice(), b.as_slice());
                proof {
                    if a@ == b@ {
                        assert(*a =~= *b);
                    }
                }
                r
            },
            _ => false,
        }
    }
}

/// The hash by which a compressed public key is addressed.
pub uninterp spec fn public_key_hash(key: Seq<u8>) -> Seq<u8>;

/// The hash by which a redeem script is addressed.
pub uninterp spec fn script_hash(script: Seq<u8>) -> Seq<u8>;

/// Whether a byte string is a sequence of operations that a redeem script can consist of.
pub uninterp spec fn is_redeem_script(script: Seq<u8>) -> bool;

/// Whether `address` is the address of the public key whose compressed form is `key`.
pub open spec fn addresses_key(address: TransparentAddress, key: Seq<u8>) -> bool {
    address matches TransparentAddress::PublicKeyHash(hash) && hash@ == public_key_hash(key)
}

/// Whether `address` is the address of the redeem script `script`.
pub open spec fn addresses_redeem_script(address: TransparentAddress, script: Seq<u8>) -> bool {
    address matches TransparentAddress::ScriptHash(hash) && hash@ == script_hash(script)
}

/// A redeem script has one address.
pub proof fn redeem_address_is_unique(
    a: TransparentAddress,
    b: TransparentAddress,
    script: Seq<u8>,
)
    requires
        addresses_redeem_script(a, script),
        addresses_redeem_script(b, script),
    ensures
        a == b,
{
    assert(a->ScriptHash_0 =~= b->ScriptHash_0);
}

/// Calls `zcash_transparent::address::TransparentAddress::from_pubkey`, which gives the address of
/// the hash of a public key; the hash is determined by the compressed form of the key.
#[verifier::external_body]
fn key_address(key: &[u8; 33]) -> (r: TransparentAddress)
    requires
        public_key_of(key@) is Ok,
    ensures
        r is PublicKeyHash,
        r->PublicKeyHash_0@ == public_key_hash(key@),
{
    let key = secp256k1::PublicKey::from_slice(key).expect("the key was read before");
    match zcash_transparent::address::TransparentAddress::from_pubkey(&key) {
        zcash_transparent::address::TransparentAddress::PublicKeyHash(hash) => {
            TransparentAddress::PublicKeyHash(hash)
        },
        zcash_transparent::address::TransparentAddress::ScriptHash(hash) => {
            TransparentAddress::ScriptHash(hash)
        },
    }
}

/// The address of a public key.
pub fn from_pubkey(key: &PublicKey) -> (r: TransparentAddress)
    ensures
        addresses_key(r, key@),
{
    let bytes = key.serialize();
    key_address(&bytes)
}

/// Calls `zcash_script::script::Redeem::parse`, whose success is determined by the bytes.
#[verifier::external_body]
fn parses_as_redeem_script(script: &[u8]) -> (r: bool)
    ensures
        r == is_redeem_script(script@),
{
    zcash_script::script::Redeem::parse(&zcash_script::script::Code(script.to_vec())).is_ok()
}

/// A redeem script, in the bytes that it is written in.
#[derive(Debug)]
pub struct RedeemScript {
    bytes: Vec<u8>,
}

impl View for RedeemScript {
    type V = Seq<u8>;

    closed spec fn view(&self) -> Seq<u8> {
        self.bytes@
    }
}

impl RedeemScript {
    /// The bytes are a redeem script.
    #[verifier::type_invariant]
    spec fn is_script(self) -> bool {
        is_redeem_script(self.bytes@)
    }

    /// Reads a redeem script.
    pub fn parse(script: &[u8]) -> (r: Option<RedeemScript>)
        ensures
            r is Some <==> is_redeem_script(script@),
            r is Some ==> r.unwrap()@ == script@,
    {
        if parses_as_redeem_script(script) {
            Some(RedeemScript { bytes: slice_to_vec(script) })
        } else {
            None
        }
    }

    /// The bytes of the script.
    pub fn as_bytes(&self) -> (r: &[u8])
        ensures
            r@ == self@,
            is_redeem_script(self@),
    {
        proof {
            use_type_invariant(self);
        }
        self.bytes.as_slice()
    }
}

/// The bytes of each script.
pub open spec fn script_bytes(scripts: Seq<Vec<u8>>) -> Seq<Seq<u8>> {
    scripts.map_values(|script: Vec<u8>| script@)
}

/// Whether an output script pays to the hash of a script.
pub open spec fn pays_script_hash(script: Seq<u8>) -> bool {
    &&& script.len() == 23
    &&& script[0] == 0xa9
    &&& script[1] == 0x14
    &&& script[22] == 0x87
}

/// Whether an output script pays to the hash of a public key.
pub open spec fn pays_public_key_hash(script: Seq<u8>) -> bool {
    &&& script.len() == 25
    &&& script[0] == 0x76
    &&& script[1] == 0xa9
    &&& script[2] == 0x14
    &&& script[23] == 0x88
    &&& script[24] == 0xac
}

/// Whether an output script pays to `address`.
pub open spec fn pays_to(script: Seq<u8>, address: TransparentAddress) -> bool {
    match address {
        TransparentAddress::PublicKeyHash(hash) => {
            pays_public_key_hash(script) && hash@ == script.subrange(3, 23)
        },
        TransparentAddress::ScriptHash(hash) => {
            pays_script_hash(script) && hash@ == script.subrange(2, 22)
        },
    }
}

/// Calls `zcash_script::descriptor::sh`, which writes the output script that pays to the hash of a
/// redeem script; the hash is determined by the redeem script.
#[verifier::external_body]
fn sh(script: &[u8]) -> (r: Vec<u8>)
    requires
        is_redeem_script(script@),
    ensures
        pays_script_hash(r@),
        r@.subrange(2, 22) == script_hash(script@),
{
    let redeem = zcash_script::script::Redeem::parse(&zcash_script::script::Code(script.to_vec()));
    zcash_script::descriptor::sh(&redeem.expect("the script was read before")).to_bytes()
}

/// Calls `zcash_transparent::address::TransparentAddress::from_script_pubkey` on the operations of
/// an output script. It finds an address exactly in the two standard forms, which name the hash of
/// a public key or of a script.
#[verifier::external_body]
pub(crate) fn from_script_pubkey(script: &[u8]) -> (r: Option<TransparentAddress>)
    ensures
        r is Some <==> pays_script_hash(script@) || pays_public_key_hash(script@),
        r is Some ==> pays_to(script@, r.unwrap()),
{
    let code = zcash_script::script::Code(script.to_vec());
    let script = zcash_script::script::PubKey::parse(&code).ok()?;
    match zcash_transparent::address::TransparentAddress::from_script_pubkey(&script)? {
        zcash_transparent::address::TransparentAddress::PublicKeyHash(hash) => {
            Some(TransparentAddress::PublicKeyHash(hash))
        },
        zcash_transparent::address::TransparentAddress::ScriptHash(hash) => {
            Some(TransparentAddress::ScriptHash(hash))
        },
    }
}

/// An output script pays to at most one address.
pub proof fn pays_to_one(script: Seq<u8>, a: TransparentAddress, b: TransparentAddress)
    requires
        pays_to(script, a),
        pays_to(script, b),
    ensures
        a == b,
{
    match (a, b) {
        (TransparentAddress::PublicKeyHash(x), TransparentAddress::PublicKeyHash(y)) => {
            assert(x =~= y);
        },
        (TransparentAddress::ScriptHash(x), TransparentAddress::ScriptHash(y)) => {
            assert(x =~= y);
        },
        _ => {},
    }
}

/// The address of a redeem script: the one that its output script pays to. There always is one.
pub fn redeem_address(script: &RedeemScript) -> (r: Option<TransparentAddress>)
    ensures
        r is Some,
        addresses_redeem_script(r.unwrap(), script@),
{
    let output: Vec<u8> = sh(script.as_bytes());
    from_script_pubkey(output.as_slice())
}

} // verus!
