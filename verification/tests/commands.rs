use std::collections::HashMap;
use zallet_migrate::command::{
    begin_migration, export_seed, export_warning, seed_announcement, ChainUse, ExportAccount,
};
use zallet_migrate::dump::{
    choose_db_dump, db_dump_location, dump_failure, name_records, overflowing_name,
    records_failure, strictness, wallet_path_base, DumpTool, PathBase,
};
use zallet_migrate::error::{ArgValue, CommandError, MigrateError, ZewifError};
use zallet_migrate::fingerprint::SeedFingerprint;

fn message_id(error: CommandError) -> &'static str {
    match error {
        CommandError::Message(message) => message.id,
        CommandError::Generic => "",
    }
}

#[test]
fn migration_has_to_be_acknowledged() {
    assert_eq!(begin_migration(true, false).unwrap(), ChainUse::Monitored);
    assert_eq!(begin_migration(true, true).unwrap(), ChainUse::Unused);
    assert_eq!(
        message_id(begin_migration(false, true).unwrap_err()),
        "migrate-alpha-code"
    );
    assert_eq!(
        message_id(begin_migration(false, false).unwrap_err()),
        "migrate-alpha-code"
    );
}

#[test]
fn seed_is_announced() {
    let bytes = [4u8; 32];
    let message = seed_announcement(&SeedFingerprint { bytes });
    assert_eq!(message.id, "migrate-wallet-legacy-seed-fp");
    assert_eq!(message.args.len(), 1);
    assert_eq!(message.args[0].0, "seed_fp");
    let text = zip32::fingerprint::SeedFingerprint::from_bytes(bytes).to_string();
    assert!(matches!(&message.args[0].1, ArgValue::Text(shown) if *shown == text));
}

#[test]
fn seed_to_export() {
    let seed = SeedFingerprint { bytes: [1; 32] };
    assert!(export_seed(ExportAccount::Derived(seed))
        .unwrap()
        .same(&seed));
    assert_eq!(
        message_id(export_seed(ExportAccount::Missing).unwrap_err()),
        "err-account-not-found"
    );
    assert_eq!(
        message_id(export_seed(ExportAccount::Underived).unwrap_err()),
        "err-account-no-payment-source"
    );
}

#[test]
fn export_warns_of_what_no_mnemonic_recovers() {
    assert!(export_warning(0, false).is_empty());
    let lines = export_warning(1, false);
    assert_eq!(
        lines,
        vec![
            "",
            "WARNING: this mnemonic is NOT a complete backup of your wallet.",
            "This wallet also holds spending keys that CANNOT be recovered from any",
            "mnemonic (imported Sapling keys, migrated transparent keys, and/or legacy",
            "seeds). To back those up you must ALSO keep a secure copy of BOTH:",
            "  - your Zallet wallet database (wallet.db in your datadir), and",
            "  - the age encryption identity file (the file named by the",
            "    keystore.encryption_identity config option); wallet.db is encrypted",
            "    to it and cannot be decrypted without it.",
            "There is currently no backup RPC or command for this key material.",
        ]
    );
    assert_eq!(export_warning(0, true), lines);
    assert_eq!(export_warning(3, true), lines);
}

#[test]
fn wallet_paths() {
    for datadir in [false, true] {
        for default in [false, true] {
            assert_eq!(
                wallet_path_base(false, datadir, default).unwrap(),
                PathBase::AsGiven
            );
        }
        assert_eq!(
            wallet_path_base(true, true, datadir).unwrap(),
            PathBase::Datadir
        );
    }
    assert_eq!(
        wallet_path_base(true, false, true).unwrap(),
        PathBase::DefaultDatadir
    );
    assert!(matches!(
        wallet_path_base(true, false, false),
        Err(MigrateError::Wrapped(CommandError::Generic))
    ));
}

#[test]
fn dump_tools() {
    assert_eq!(db_dump_location(), ["zcutil", "bin", "db_dump"]);
    assert_eq!(choose_db_dump(true, true).unwrap(), DumpTool::Installed);
    assert_eq!(choose_db_dump(false, false).unwrap(), DumpTool::AtHand);
    assert_eq!(choose_db_dump(false, true).unwrap(), DumpTool::AtHand);
    assert_eq!(
        message_id(CommandError::from(
            choose_db_dump(true, false).unwrap_err()
        )),
        "err-migrate-wallet-db-dump-not-found"
    );
}

#[test]
fn dump_failures() {
    let fail = |tool, on_path| {
        dump_failure(
            tool,
            on_path,
            Some("wallet.dat".to_string()),
            "no".to_string(),
        )
    };
    assert_eq!(
        message_id(CommandError::from(fail(DumpTool::AtHand, false))),
        "err-migrate-wallet-db-dump-not-found"
    );
    for (tool, on_path) in [
        (DumpTool::AtHand, true),
        (DumpTool::Installed, true),
        (DumpTool::Installed, false),
    ] {
        match fail(tool, on_path) {
            MigrateError::Zewif {
                error_type,
                wallet_path,
                error,
            } => {
                assert_eq!(error_type, ZewifError::BdbDump);
                assert_eq!(wallet_path.as_deref(), Some("wallet.dat"));
                assert_eq!(error, "no");
            }
            _ => panic!("the dump failed"),
        }
    }
    assert!(matches!(
        records_failure(None, "no".to_string()),
        MigrateError::Zewif {
            error_type: ZewifError::ZcashdDump,
            wallet_path: None,
            error
        } if error == "no"
    ));
}

#[test]
fn strictness_of_reading() {
    let strict = strictness(true);
    assert!(strict.names && !strict.records);
    let strict = strictness(false);
    assert!(!strict.names && strict.records);
}

fn record(keyname: &str, value: &[u8]) -> (zewif::Data, zewif::Data) {
    let mut key = vec![keyname.len() as u8];
    key.extend_from_slice(keyname.as_bytes());
    (zewif::Data::from_vec(key), zewif::Data::from_slice(value))
}

fn dump(records: Vec<(zewif::Data, zewif::Data)>) -> zewif_zcashd::BDBDump {
    zewif_zcashd::BDBDump {
        header_records: HashMap::new(),
        data_records: records.into_iter().collect(),
    }
}

#[test]
fn records_are_named() {
    let path = Some("wallet.dat".to_string());
    // A record whose name is longer than its key.
    let unnamed = || {
        (
            zewif::Data::from_vec(vec![9, b'a']),
            zewif::Data::from_vec(vec![]),
        )
    };
    let records = dump(vec![unnamed(), record("bestblock", &[1])]);
    match name_records(&records, true, path.clone()) {
        Err(MigrateError::Zewif {
            error_type,
            wallet_path,
            error,
        }) => {
            assert_eq!(error_type, ZewifError::ZcashdDump);
            assert_eq!(wallet_path, path);
            let key = zewif::Data::from_vec(vec![9, b'a']);
            let failure = zewif_zcashd::DBKey::parse_data(&key).unwrap_err();
            assert_eq!(error, failure.to_string());
        }
        _ => panic!("the record has no name"),
    }
    let named = name_records(&records, false, path).unwrap();
    let names: Vec<&str> = named
        .records()
        .keys()
        .map(|key| key.keyname.as_str())
        .collect();
    assert_eq!(names, vec!["bestblock"]);
}

#[test]
fn record_names_out_of_range() {
    let mut key = vec![0xff; 9];
    assert!(overflowing_name(&key));
    key.push(b'a');
    assert!(overflowing_name(&key));
    key[1] = 0xf7;
    assert!(overflowing_name(&key));
    key[1] = 0xf6;
    assert!(!overflowing_name(&key));
    assert!(!overflowing_name(&[0xff; 8]));
    assert!(!overflowing_name(&[]));
    assert!(!overflowing_name(&[4, b'n', b'a', b'm', b'e']));

    let path = Some("wallet.dat".to_string());
    let overflow = || {
        (
            zewif::Data::from_vec(vec![0xff; 12]),
            zewif::Data::from_vec(vec![]),
        )
    };
    let records = dump(vec![overflow(), record("bestblock", &[1])]);
    for allow_warnings in [true, false] {
        match name_records(&records, allow_warnings, path.clone()) {
            Err(MigrateError::Zewif {
                error_type,
                wallet_path,
                error,
            }) => {
                assert_eq!(error_type, ZewifError::ZcashdDump);
                assert_eq!(wallet_path, path);
                assert_eq!(error, "the length of a record name is out of range");
            }
            _ => panic!("the length of the name is out of range"),
        }
    }
}
