use zallet_migrate::error::{ArgValue, CommandError, Message, MigrateError, ZewifError};
use zallet_migrate::fingerprint::SeedFingerprint;
use zallet_migrate::network::{check_network, Network, NetworkType};
use zcash_client_sqlite::error::SqliteClientError;
use zcash_transparent::keys::TransparentKeyScope;

/// The identifier of a message, and its arguments written out.
fn shown(error: CommandError) -> (String, Vec<(String, String)>) {
    match error {
        CommandError::Generic => panic!("a message was expected"),
        CommandError::Message(Message { id, args }) => (
            id.to_string(),
            args.into_iter()
                .map(|(name, value)| {
                    let value = match value {
                        ArgValue::Text(text) => text,
                        ArgValue::Number(n) => format!("#{n}"),
                        ArgValue::Absent => "-".to_string(),
                    };
                    (name.to_string(), value)
                })
                .collect(),
        ),
    }
}

fn expect(error: MigrateError, id: &str, args: &[(&str, &str)]) {
    let (shown_id, shown_args) = shown(CommandError::from(error));
    assert_eq!(shown_id, id);
    let args: Vec<(String, String)> = args
        .iter()
        .map(|(name, value)| (name.to_string(), value.to_string()))
        .collect();
    assert_eq!(shown_args, args);
}

#[test]
fn failures_to_read_the_wallet() {
    expect(
        MigrateError::Zewif {
            error_type: ZewifError::BdbDump,
            wallet_path: Some("/tmp/wallet.dat".to_string()),
            error: "no".to_string(),
        },
        "err-migrate-wallet-bdb-parse",
        &[("path", "/tmp/wallet.dat"), ("err", "no")],
    );
    expect(
        MigrateError::Zewif {
            error_type: ZewifError::ZcashdDump,
            wallet_path: None,
            error: "no".to_string(),
        },
        "err-migrate-wallet-db-dump",
        &[("path", "-"), ("err", "no")],
    );
}

#[test]
fn failures_without_a_cause() {
    expect(
        MigrateError::SeedNotAvailable,
        "err-migrate-wallet-seed-absent",
        &[],
    );
    expect(
        MigrateError::NetworkNotSupported(NetworkType::Regtest),
        "err-migrate-wallet-regtest",
        &[],
    );
    expect(
        MigrateError::MultiImportDisabled,
        "err-migrate-wallet-multi-import-disabled",
        &[],
    );
    expect(
        MigrateError::AccountIdInvalid(0x8000_0000),
        "err-migrate-wallet-invalid-account-id",
        &[("account_id", "#2147483648")],
    );
}

#[test]
fn failures_with_a_cause() {
    expect(
        MigrateError::from(bip0039::Error::InvalidChecksum),
        "err-migrate-wallet-invalid-mnemonic",
        &[("err", "mnemonic has an invalid checksum")],
    );
    expect(
        MigrateError::from(secp256k1::Error::InvalidPublicKey),
        "err-migrate-wallet-key-decoding",
        &[("err", "malformed public key")],
    );
    expect(
        MigrateError::from(zcash_keys::keys::DerivationError::Sapling),
        "err-migrate-wallet-key-data",
        &[("err", "Sapling error: derived an invalid spending key")],
    );
    expect(
        MigrateError::from(zcash_keys::keys::zcashd::PathParseError::AccountIdInvalid(
            7,
        )),
        "err-migrate-wallet-data-parse",
        &[("err", "AccountIdInvalid(7)")],
    );
    expect(
        MigrateError::from(std::io::Error::new(std::io::ErrorKind::Other, "broken")),
        "err-migrate-wallet-data-parse",
        &[("err", "broken")],
    );
    expect(
        MigrateError::from(SqliteClientError::CorruptedData(
            "no root".to_string(),
        )),
        "err-migrate-wallet-storage",
        &[("err", "Data DB is corrupted: no root")],
    );
    expect(
        MigrateError::from(shardtree::error::ShardTreeError::Storage(
            zcash_client_sqlite::wallet::commitment_tree::Error::Serialization(
                std::io::Error::new(std::io::ErrorKind::Other, "cut"),
            ),
        )),
        "err-migrate-wallet-data-parse",
        &[(
            "err",
            "An error occurred persisting or retrieving tree data: Commitment tree serialization \
             error: cut",
        )],
    );
}

fn gap_limit(scope: TransparentKeyScope) -> MigrateError {
    MigrateError::from(SqliteClientError::ReachedGapLimit(scope, 5))
}

#[test]
fn failures_without_words() {
    for scope in [
        TransparentKeyScope::EXTERNAL,
        TransparentKeyScope::INTERNAL,
        TransparentKeyScope::EPHEMERAL,
    ] {
        assert!(gap_limit(scope).can_be_reported());
        assert!(CommandError::from_if_possible(gap_limit(scope)).is_some());
    }
    let unnamed = TransparentKeyScope::custom(3).unwrap();
    assert!(!gap_limit(unnamed).can_be_reported());
    assert!(CommandError::from_if_possible(gap_limit(unnamed)).is_none());
    assert!(CommandError::from_if_possible(MigrateError::SeedNotAvailable).is_some());
}

#[test]
fn failures_are_kept_whole() {
    match MigrateError::from(SqliteClientError::BadAccountData("odd".to_string())) {
        MigrateError::Database(SqliteClientError::BadAccountData(msg)) => assert_eq!(msg, "odd"),
        _ => panic!("the failure is one of the database"),
    }
    let full: shardtree::error::ShardTreeError<_> =
        shardtree::error::InsertionError::TreeFull.into();
    assert!(matches!(
        MigrateError::from(full),
        MigrateError::Tree(shardtree::error::ShardTreeError::Insert(
            shardtree::error::InsertionError::TreeFull
        ))
    ));
    match MigrateError::from(Message::plain("some-message")) {
        MigrateError::Wrapped(CommandError::Message(message)) => {
            assert_eq!(message.id, "some-message");
        }
        _ => panic!("the message is wrapped"),
    }
}

#[test]
fn duplicate_import_names_the_seed() {
    let bytes: [u8; 32] = [9; 32];
    let text = zip32::fingerprint::SeedFingerprint::from_bytes(bytes).to_string();
    assert!(text.starts_with("zip32seedfp1"));
    expect(
        MigrateError::DuplicateImport(SeedFingerprint { bytes }),
        "err-migrate-wallet-duplicate-import",
        &[("seed_fp", &text)],
    );
}

#[test]
fn wrapped_failures_are_reported_as_they_were_raised() {
    assert!(matches!(
        CommandError::from(MigrateError::from(CommandError::Generic)),
        CommandError::Generic
    ));
    expect(
        MigrateError::raise(Message::plain("some-id")),
        "some-id",
        &[],
    );
}

#[test]
fn networks_have_to_match() {
    let pairs = [
        (Network::Main, NetworkType::Main),
        (Network::Test, NetworkType::Test),
        (Network::Regtest, NetworkType::Regtest),
    ];
    for (i, (wallet, _)) in pairs.iter().enumerate() {
        for (j, (_, db)) in pairs.iter().enumerate() {
            match check_network(*wallet, *db) {
                Ok(network) => {
                    assert_eq!(i, j);
                    assert_eq!(network, *db);
                }
                Err(e) => {
                    assert_ne!(i, j);
                    expect(
                        e,
                        "err-migrate-wallet-network-mismatch",
                        &[
                            ("wallet_network", wallet.text()),
                            ("zallet_network", db.text()),
                        ],
                    );
                }
            }
        }
    }
    assert_eq!(Network::Regtest.text(), "regtest");
    assert_eq!(NetworkType::Test.text(), "test");
}
