use zallet_migrate::accounts::{
    check_account_id, check_import, zcashd_seed_fingerprints, AccountLabel, AccountSource,
    ZCASHD_LEGACY_ACCOUNT, ZCASHD_LEGACY_SOURCE, ZCASHD_MNEMONIC_SOURCE,
};
use zallet_migrate::error::MigrateError;
use zallet_migrate::fingerprint::{contains, same_option, SeedFingerprint};
use zallet_migrate::mnemonic::{derive_mnemonic, parse_mnemonic};

const PHRASE: &str = "abandon abandon abandon abandon abandon abandon abandon abandon abandon \
                      abandon abandon about";

fn fp(n: u8) -> SeedFingerprint {
    SeedFingerprint { bytes: [n; 32] }
}

#[test]
fn no_mnemonic() {
    assert!(parse_mnemonic("").unwrap().is_none());
}

#[test]
fn mnemonic_is_normalised() {
    let spaced = PHRASE.replace(' ', "  \n");
    let mnemonic = parse_mnemonic(&spaced).unwrap().unwrap();
    assert_eq!(mnemonic.phrase(), PHRASE);
}

#[test]
fn mnemonic_seed_and_fingerprint() {
    let mnemonic = parse_mnemonic(PHRASE).unwrap().unwrap();
    assert_eq!(
        hex::encode(mnemonic.to_seed()),
        "5eb00bbddcf069084889a8ab9155568165f5c453ccb85e70811aaed6f6da5fc1\
         9a5ac40b389cd370d086206dec8aa6c43daea6690f20ad3d8d48b2d2ce9e38e4"
    );
    assert_eq!(
        hex::encode(mnemonic.seed_fingerprint().bytes),
        "21ed3d7882c7e37fe012b54a6408048048cb09782d4b2938617da793ccd27815"
    );
}

#[test]
fn bad_mnemonics() {
    assert_eq!(
        parse_mnemonic("abandon about").err().unwrap(),
        bip0039::Error::BadWordCount(2)
    );
    assert_eq!(
        parse_mnemonic(&PHRASE.replace("about", "zallet")).err().unwrap(),
        bip0039::Error::UnknownWord("zallet".to_string())
    );
    assert_eq!(
        parse_mnemonic(&PHRASE.replace("about", "abandon")).err().unwrap(),
        bip0039::Error::InvalidChecksum
    );
    // Blanks are no phrase, but not an empty text either.
    assert!(parse_mnemonic(" ").is_err());
}

#[test]
fn mnemonic_from_a_legacy_seed() {
    let mnemonic = derive_mnemonic(&[0; 32]).unwrap();
    assert_eq!(mnemonic.phrase(), "abandon ".repeat(23) + "art");
    assert_eq!(
        hex::encode(mnemonic.seed_fingerprint().bytes),
        "e62855dc1419972e2d8fd349b740de6a67d8cf6feaafe90cf2f37a2344566ccc"
    );
    assert!(derive_mnemonic(&[0; 31]).is_none());
    assert!(derive_mnemonic(&[0; 64]).is_none());
    assert!(derive_mnemonic(&[255; 32]).is_some());
}

#[test]
fn fingerprints_are_compared_by_their_bytes() {
    assert!(fp(1).same(&fp(1)));
    assert!(!fp(1).same(&fp(2)));
    assert!(same_option(&None, &None));
    assert!(!same_option(&None, &Some(fp(1))));
    assert!(same_option(&Some(fp(1)), &Some(fp(1))));
    assert!(contains(&vec![fp(1), fp(2)], &fp(2)));
    assert!(!contains(&vec![fp(1), fp(2)], &fp(3)));
}

fn source(n: u8, name: Option<&str>) -> AccountSource {
    AccountSource::Derived {
        seed_fingerprint: fp(n),
        key_source: name.map(|name| name.to_string()),
    }
}

#[test]
fn accounts_from_zcashd_mnemonics() {
    let sources = vec![
        AccountSource::Imported,
        source(1, Some(ZCASHD_MNEMONIC_SOURCE)),
        source(2, Some(ZCASHD_LEGACY_SOURCE)),
        source(3, None),
        source(4, Some("zcashd_mnemonic")),
        source(1, Some("zcashd_mnemonic")),
    ];
    let found = zcashd_seed_fingerprints(&sources);
    let found: Vec<u8> = found.iter().map(|fp| fp.bytes[0]).collect();
    assert_eq!(found, vec![1, 4, 1]);
}

#[test]
fn imports_besides_others() {
    assert!(check_import(&vec![], false, &None).is_ok());
    assert!(check_import(&vec![], false, &Some(fp(1))).is_ok());
    assert!(matches!(
        check_import(&vec![fp(1)], false, &Some(fp(2))),
        Err(MigrateError::MultiImportDisabled)
    ));
    assert!(matches!(
        check_import(&vec![fp(1)], false, &None),
        Err(MigrateError::MultiImportDisabled)
    ));
    assert!(check_import(&vec![fp(1)], true, &None).is_ok());
    assert!(check_import(&vec![fp(1)], true, &Some(fp(2))).is_ok());
    match check_import(&vec![fp(1), fp(2)], true, &Some(fp(2))) {
        Err(MigrateError::DuplicateImport(seed)) => assert!(seed.same(&fp(2))),
        _ => panic!("the wallet was imported before"),
    }
}

#[test]
fn account_identifiers_are_hardened() {
    assert_eq!(check_account_id(0).unwrap(), 0);
    assert_eq!(check_account_id(0x7FFF_FFFF).unwrap(), ZCASHD_LEGACY_ACCOUNT);
    assert!(matches!(
        check_account_id(0x8000_0000),
        Err(MigrateError::AccountIdInvalid(0x8000_0000))
    ));
    assert!(matches!(
        check_account_id(u32::MAX),
        Err(MigrateError::AccountIdInvalid(u32::MAX))
    ));
}

#[test]
fn account_names() {
    assert_eq!(
        AccountLabel::LegacyTransparent.text(),
        "zcashd post-v4.7.0 legacy transparent account 2147483647"
    );
    assert_eq!(
        AccountLabel::Unified(5).text(),
        "zcashd imported unified account 5"
    );
    assert_eq!(
        AccountLabel::LegacySapling(0).text(),
        "zcashd legacy sapling 0"
    );
    assert_eq!(
        AccountLabel::ViewOnlySapling(12).text(),
        "zcashd imported view-only sapling 12"
    );
}
