use zallet_migrate::error::MigrateError;
use zallet_migrate::fingerprint::SeedFingerprint;
use zallet_migrate::network::NetworkType;
use zallet_migrate::sapling::{
    account_lookup, key_origin, sapling_account, standalone, unified_viewing_key, AccountLookup,
    HdDerivation, SaplingKey,
};
use zcash_keys::keys::zcashd::PathParseError;

fn fp(n: u8) -> SeedFingerprint {
    SeedFingerprint { bytes: [n; 32] }
}

fn master(n: u8) -> sapling_crypto::zip32::ExtendedSpendingKey {
    sapling_crypto::zip32::ExtendedSpendingKey::master(&[n; 32]).unwrap()
}

#[allow(deprecated)]
fn viewing(n: u8) -> sapling_crypto::zip32::ExtendedFullViewingKey {
    master(n).to_extended_full_viewing_key()
}

fn key(n: u8, seed: Option<u8>, path: Option<&str>) -> SaplingKey {
    SaplingKey {
        extsk: master(n),
        seed_fp: seed.map(fp),
        hd_keypath: path.map(|path| path.to_string()),
    }
}

#[test]
fn spending_and_viewing_keys_give_the_same_account() {
    let main = zcash_protocol::consensus::Network::MainNetwork;
    let account = sapling_account(&key(1, None, None), NetworkType::Main).unwrap();
    let same = unified_viewing_key(&viewing(1)).unwrap();
    let other = unified_viewing_key(&viewing(2)).unwrap();
    let ufvk = account.ufvk.encode(&main).ok().unwrap();
    assert!(ufvk.starts_with("uview1"));
    assert_eq!(ufvk, same.encode(&main).ok().unwrap());
    assert_ne!(ufvk, other.encode(&main).ok().unwrap());
    assert!(account.derivation.is_none());
}

#[test]
fn key_paths() {
    let zip32 = sapling_account(&key(1, Some(7), Some("m/32'/133'/5'")), NetworkType::Main)
        .unwrap()
        .derivation
        .unwrap();
    assert!(zip32.seed_fingerprint.same(&fp(7)));
    assert_eq!(zip32.account_index, 5);
    assert_eq!(zip32.legacy_address_index, None);

    let legacy = sapling_account(
        &key(1, Some(7), Some("m/32'/1'/2147483647'/9'")),
        NetworkType::Test,
    )
    .unwrap()
    .derivation
    .unwrap();
    assert_eq!(legacy.account_index, 0x7FFF_FFFF);
    assert_eq!(legacy.legacy_address_index, Some(9));

    // A path means nothing without its seed, but has to be readable all the same.
    let unseeded = sapling_account(&key(1, None, Some("m/32'/133'/5'")), NetworkType::Main);
    assert!(unseeded.unwrap().derivation.is_none());
    assert!(matches!(
        sapling_account(&key(1, None, Some("m/44'")), NetworkType::Main),
        Err(MigrateError::HdPath(PathParseError::PathInvalid))
    ));
    assert!(matches!(
        sapling_account(&key(1, Some(7), Some("m/32'/1'/5'")), NetworkType::Main),
        Err(MigrateError::HdPath(PathParseError::CoinTypeMismatch {
            expected: 133,
            actual: 1
        }))
    ));
    // A seed without a path says nothing of the account.
    let unpathed = sapling_account(&key(1, Some(7), None), NetworkType::Main);
    assert!(unpathed.unwrap().derivation.is_none());
}

#[test]
fn origins() {
    assert!(key_origin(None, Some(fp(1))).is_none());
    assert!(key_origin(Some(HdDerivation::Zip32 { account_id: 1 }), None).is_none());
    let origin = key_origin(
        Some(HdDerivation::Post470LegacySapling { address_index: 3 }),
        Some(fp(1)),
    )
    .unwrap();
    assert_eq!(origin.account_index, 0x7FFF_FFFF);
    assert_eq!(origin.legacy_address_index, Some(3));
}

#[test]
fn standalone_keys() {
    let (a, b, c) = (Some(fp(1)), Some(fp(2)), Some(fp(3)));
    assert!(!standalone(&a, &a, &b));
    assert!(!standalone(&b, &a, &b));
    assert!(standalone(&c, &a, &b));
    assert!(standalone(&c, &None, &None));
    assert!(standalone(&None, &a, &b));
    // A key without a seed belongs to neither, whichever seeds the wallet has.
    assert!(standalone(&None, &a, &None));
    assert!(standalone(&None, &None, &b));
    assert!(standalone(&None, &None, &None));
}

#[test]
fn lookups() {
    let account = sapling_account(
        &key(1, Some(7), Some("m/32'/133'/2147483647'/9'")),
        NetworkType::Main,
    )
    .unwrap();
    match account_lookup(&Some(fp(7)), &account) {
        AccountLookup::ByDerivation(derivation) => {
            assert!(derivation.seed_fingerprint.same(&fp(7)));
            assert_eq!(derivation.account_index, 0x7FFF_FFFF);
            assert_eq!(derivation.legacy_address_index, Some(9));
        }
        AccountLookup::ByViewingKey(_) => panic!("the seed is known"),
    }
    // The account of a key with an account identifier of its own is sought as a legacy account.
    let account = sapling_account(&key(1, Some(7), Some("m/32'/133'/5'")), NetworkType::Main)
        .unwrap();
    match account_lookup(&Some(fp(7)), &account) {
        AccountLookup::ByDerivation(derivation) => {
            assert_eq!(derivation.account_index, 0x7FFF_FFFF);
            assert_eq!(derivation.legacy_address_index, None);
        }
        AccountLookup::ByViewingKey(_) => panic!("the seed is known"),
    }
    assert!(matches!(
        account_lookup(&None, &account),
        AccountLookup::ByViewingKey(_)
    ));
}
