use secrecy::ExposeSecret;
use zallet_migrate::error::{ArgValue, CommandError, MigrateError};
use zallet_migrate::exposure::{exposure_marks, AddressSet};
use zallet_migrate::transparent::{
    from_pubkey, redeem_address, PublicKey, RedeemScript, TransparentAddress,
};
use zallet_migrate::transparent_keys::{
    assemble_key, can_convert, convert_key, convert_key_if_possible, ends_in_version, KeyPair,
    TransparentKey,
};
use zallet_migrate::watchonly::{
    classify, collect_redeem_scripts, collect_watch_scripts, WatchOutcome, WatchScriptKind,
};

/// The generator of the curve, compressed.
fn generator() -> Vec<u8> {
    hex::decode("0279be667ef9dcbbac55a06295ce870b07029bfcdb2dce28d959f2815b16f81798").unwrap()
}

/// The generator of the curve, uncompressed.
fn generator_uncompressed() -> Vec<u8> {
    hex::decode(
        "0479be667ef9dcbbac55a06295ce870b07029bfcdb2dce28d959f2815b16f81798\
         483ada7726a3c4655da4fbfc0e1108a8fd17b448a68554199c47d08ffb10d4b8",
    )
    .unwrap()
}

fn hash20(text: &str) -> [u8; 20] {
    let bytes = hex::decode(text).unwrap();
    let mut hash = [0u8; 20];
    hash.copy_from_slice(&bytes);
    hash
}

fn der(secret: [u8; 32], compressed: bool) -> Vec<u8> {
    let secret = secp256k1::SecretKey::from_secret_bytes(secret).unwrap();
    zcash_keys::keys::transparent::Key::new(secret, compressed)
        .der_encode()
        .expose_secret()
        .clone()
}

#[test]
fn public_keys_are_kept_compressed() {
    let compressed = PublicKey::from_slice(&generator()).unwrap();
    assert_eq!(compressed.serialize().to_vec(), generator());
    let uncompressed = PublicKey::from_slice(&generator_uncompressed()).unwrap();
    assert_eq!(uncompressed.serialize().to_vec(), generator());
    assert!(PublicKey::from_slice(&[2; 32]).is_err());
    assert!(PublicKey::from_slice(&[0; 33]).is_err());
    assert!(PublicKey::from_slice(&[]).is_err());
}

#[test]
fn addresses_of_public_keys() {
    let key = PublicKey::from_slice(&generator()).unwrap();
    match from_pubkey(&key) {
        TransparentAddress::PublicKeyHash(hash) => {
            assert_eq!(hash, hash20("751e76e8199196d454941c45d1b3a323f1433bd6"));
        }
        TransparentAddress::ScriptHash(_) => panic!("a key has the address of a key"),
    }
}

#[test]
fn redeem_scripts_always_have_an_address() {
    let script = RedeemScript::parse(&[0x51]).unwrap();
    assert_eq!(script.as_bytes(), &[0x51]);
    match redeem_address(&script) {
        Some(TransparentAddress::ScriptHash(hash)) => {
            assert_eq!(hash, hash20("da1745e9b549bd0bfa1a569971c77eba30cd5a4b"));
        }
        _ => panic!("a script has the address of a script"),
    }
    let empty = RedeemScript::parse(&[]).unwrap();
    match redeem_address(&empty) {
        Some(TransparentAddress::ScriptHash(hash)) => {
            assert_eq!(hash, hash20("b472a266d0bd89c13706a4132ccfb16f7c3b9fcb"));
        }
        _ => panic!("a script has the address of a script"),
    }
    // A push that runs past the end of the script.
    assert!(RedeemScript::parse(&[0x05, 0x01]).is_none());
}

fn script_hash(script: &[u8]) -> [u8; 20] {
    match redeem_address(&RedeemScript::parse(script).unwrap()) {
        Some(TransparentAddress::ScriptHash(hash)) => hash,
        _ => panic!("a redeem script is addressed by its hash"),
    }
}

#[test]
fn watched_scripts_come_to_one_end_each() {
    let kinds = vec![
        WatchScriptKind::P2PK(generator()),
        WatchScriptKind::P2PK(generator_uncompressed()),
        WatchScriptKind::P2PK(vec![0; 33]),
        WatchScriptKind::P2PK(vec![0; 20]),
        WatchScriptKind::P2PKH,
        WatchScriptKind::P2SH(script_hash(&[0x51])),
        WatchScriptKind::P2SH([7; 20]),
        WatchScriptKind::P2SH([8; 20]),
        WatchScriptKind::Other,
        WatchScriptKind::P2PKH,
        WatchScriptKind::P2PKH,
    ];
    let scripts = collect_redeem_scripts(&vec![vec![0x52], vec![0x51]]);
    let watch = collect_watch_scripts(&kinds, &scripts.parsed);
    assert_eq!(watch.pubkeys.len(), 1);
    assert_eq!(watch.pubkeys[0].serialize().to_vec(), generator());
    assert_eq!(watch.uncompressed, 2);
    assert_eq!(watch.malformed, 1);
    assert_eq!(watch.public_key_hash_only, 3);
    assert_eq!(watch.redeemed, 1);
    assert_eq!(watch.script_hash_only, 2);
    assert_eq!(watch.nonstandard, 1);
    assert_eq!(
        watch.pubkeys.len()
            + watch.uncompressed
            + watch.malformed
            + watch.public_key_hash_only
            + watch.redeemed
            + watch.script_hash_only
            + watch.nonstandard,
        kinds.len()
    );
}

#[test]
fn watched_keys_are_classified_by_form_first() {
    let compressed = WatchScriptKind::P2PK(vec![2; 33]);
    let uncompressed = WatchScriptKind::P2PK(vec![4; 65]);
    assert_eq!(classify(&compressed, true, false), WatchOutcome::Imported);
    assert_eq!(classify(&compressed, false, false), WatchOutcome::Malformed);
    assert_eq!(classify(&uncompressed, true, false), WatchOutcome::Uncompressed);
    assert_eq!(classify(&uncompressed, false, false), WatchOutcome::Uncompressed);
    assert_eq!(
        classify(&WatchScriptKind::P2SH([7; 20]), true, false),
        WatchOutcome::ScriptHashOnly
    );
    assert_eq!(
        classify(&WatchScriptKind::P2SH([7; 20]), false, true),
        WatchOutcome::Redeemed
    );
}

#[test]
fn redeem_scripts_are_sorted_out() {
    let scripts = vec![
        vec![0x51],
        vec![0x05, 0x01],
        vec![0x52, 0x53],
        vec![0x4c],
    ];
    let read = collect_redeem_scripts(&scripts);
    let parsed: Vec<Vec<u8>> = read.parsed.iter().map(|s| s.as_bytes().to_vec()).collect();
    assert_eq!(parsed, vec![vec![0x51], vec![0x52, 0x53]]);
    assert_eq!(read.unparseable, vec![vec![0x05, 0x01], vec![0x4c]]);
}

#[test]
fn keys_are_converted() {
    let key = KeyPair {
        pubkey: generator(),
        privkey: der([7; 32], true),
    };
    let converted = convert_key(&key).unwrap();
    assert_eq!(converted.secret, [7; 32]);
    assert!(converted.compressed);

    let key = KeyPair {
        pubkey: generator_uncompressed(),
        privkey: der([7; 32], false),
    };
    let converted = convert_key(&key).unwrap();
    assert_eq!(converted.secret, [7; 32]);
    assert!(!converted.compressed);
}

#[test]
fn keys_that_cannot_be_read() {
    let key = KeyPair {
        pubkey: vec![1, 2, 3],
        privkey: der([7; 32], true),
    };
    assert!(matches!(
        convert_key(&key),
        Err(MigrateError::KeyError(
            secp256k1::Error::InvalidPublicKey
        ))
    ));

    let key = KeyPair {
        pubkey: generator(),
        privkey: vec![0x30],
    };
    match CommandError::from(convert_key(&key).unwrap_err()) {
        CommandError::Message(message) => {
            assert_eq!(message.id, "err-migrate-wallet-key-decoding");
            assert_eq!(message.args.len(), 1);
            assert_eq!(message.args[0].0, "err");
            assert!(matches!(
                &message.args[0].1,
                ArgValue::Text(text) if text == "failed DER decoding"
            ));
        }
        CommandError::Generic => panic!("a message was expected"),
    }
}

#[test]
fn keys_that_end_in_their_version() {
    for encoded in [
        vec![0x30, 0x81, 0],
        vec![0x30, 0x81, 2, 2, 1],
        vec![0x30, 0x82, 0, 1, 2],
        vec![0x30, 0x82, 0, 0],
    ] {
        assert!(ends_in_version(&encoded));
        let key = KeyPair {
            pubkey: generator(),
            privkey: encoded,
        };
        assert!(!can_convert(&key));
        assert!(convert_key_if_possible(&key).is_none());
    }
    for encoded in [
        vec![],
        vec![0x30, 0x81],
        vec![0x30, 0x81, 1],
        vec![0x31, 0x81, 0],
        vec![0x30, 0x82, 1, 0, 0, 0],
        vec![0x30, 0x81, 3, 2, 1, 1],
        vec![0x30, 0x82, 0],
    ] {
        assert!(!ends_in_version(&encoded));
        let key = KeyPair {
            pubkey: generator(),
            privkey: encoded,
        };
        assert!(can_convert(&key));
        assert!(convert_key_if_possible(&key).unwrap().is_err());
    }
    // The private key is not looked at if the public key cannot be read.
    let key = KeyPair {
        pubkey: vec![],
        privkey: vec![0x30, 0x81, 0],
    };
    assert!(can_convert(&key));
    assert!(matches!(
        convert_key_if_possible(&key),
        Some(Err(MigrateError::KeyError(_)))
    ));
}

#[test]
fn keys_are_assembled() {
    let key = TransparentKey {
        secret: [3; 32],
        compressed: false,
    };
    let read = PublicKey::from_slice(&generator());
    assert_eq!(assemble_key(read, Some(key)).unwrap().secret, [3; 32]);
    assert!(assemble_key(PublicKey::from_slice(&generator()), None).is_err());
    assert!(matches!(
        assemble_key(Err(secp256k1::Error::InvalidPublicKey), Some(key)),
        Err(MigrateError::KeyError(_))
    ));
}

fn address(n: u8) -> TransparentAddress {
    TransparentAddress::PublicKeyHash([n; 20])
}

#[test]
fn addresses_are_held_once() {
    let mut set = AddressSet::new();
    assert!(set.is_empty());
    set.insert(address(1));
    set.insert(address(2));
    set.insert(address(1));
    set.insert(TransparentAddress::ScriptHash([1; 20]));
    assert_eq!(set.len(), 3);
    assert!(set.contains(&address(2)));
    assert!(!set.contains(&address(3)));
    assert!(!set.contains(&TransparentAddress::ScriptHash([2; 20])));
    let mut other = AddressSet::new();
    other.insert(address(2));
    other.insert(address(4));
    set.insert_all(&other);
    assert_eq!(set.len(), 4);
    let key = PublicKey::from_slice(&generator()).unwrap();
    set.insert_keys(&vec![key, key]);
    assert_eq!(set.len(), 5);
    assert!(set.contains(&from_pubkey(&key)));
}

#[test]
fn untracked_addresses_are_counted() {
    let mut set = AddressSet::new();
    set.insert(address(1));
    set.insert(address(2));
    set.insert(address(3));
    assert_eq!(set.untracked(&vec![address(2), address(9), address(2)]), 2);
    assert_eq!(set.untracked(&vec![]), 3);
    assert_eq!(AddressSet::new().untracked(&vec![address(1)]), 0);
}

#[test]
fn known_addresses_are_marked_once() {
    let mut set = AddressSet::new();
    for n in 1..5 {
        set.insert(address(n));
    }
    let known = vec![address(2), address(9), address(4), address(2)];
    let marks = exposure_marks(&set, &known, 77);
    assert_eq!(marks.len(), 2);
    assert!(marks[0].0.same(&address(2)));
    assert!(marks[1].0.same(&address(4)));
    assert!(marks.iter().all(|mark| mark.1 == 77));
    assert!(exposure_marks(&set, &vec![], 77).is_empty());
}
