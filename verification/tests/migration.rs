use secrecy::ExposeSecret;
use zallet_migrate::accounts::{AccountSource, AccountUuid};
use zallet_migrate::action::{AccountPurpose, Action, Event, Stage};
use zallet_migrate::consensus::NetworkUpgrades;
use zallet_migrate::error::{ArgValue, CommandError, MigrateError};
use zallet_migrate::fingerprint::SeedFingerprint;
use zallet_migrate::migration::MigrationOptions;
use zallet_migrate::migrator::{Advance, Migrator};
use zallet_migrate::mnemonic::parse_mnemonic;
use zallet_migrate::network::{Network, NetworkType};
use zallet_migrate::sapling::{AccountLookup, SaplingKey};
use zallet_migrate::transactions::{BlockHash, WalletTransaction};
use zallet_migrate::transparent::{redeem_address, PublicKey, TransparentAddress};
use zallet_migrate::transparent_keys::KeyPair;
use zallet_migrate::wallet::{UnifiedAccount, Wallet};
use zallet_migrate::watchonly::{collect_redeem_scripts, WatchScriptKind};

const PHRASE: &str = "abandon abandon abandon abandon abandon abandon abandon abandon abandon \
                      abandon abandon about";

fn fp(n: u8) -> SeedFingerprint {
    SeedFingerprint { bytes: [n; 32] }
}

fn phrase_fp() -> SeedFingerprint {
    parse_mnemonic(PHRASE).unwrap().unwrap().seed_fingerprint()
}

fn upgrades() -> NetworkUpgrades {
    NetworkUpgrades {
        overwinter: Some(1),
        sapling: Some(100),
        blossom: Some(200),
        heartwood: None,
        canopy: None,
        nu5: None,
        nu6: None,
        nu6_1: None,
        nu6_2: None,
        nu6_3: None,
        nu7: None,
    }
}

fn options() -> MigrationOptions {
    MigrationOptions {
        buffer_wallet_transactions: false,
        allow_multiple_wallet_imports: false,
        no_scan: false,
    }
}

fn secret(n: u8) -> secp256k1::SecretKey {
    secp256k1::SecretKey::from_secret_bytes([n; 32]).unwrap()
}

fn pubkey(n: u8) -> PublicKey {
    PublicKey::from_slice(&secret(n).public_key().serialize()).unwrap()
}

fn pubkey_address(n: u8) -> TransparentAddress {
    zallet_migrate::transparent::from_pubkey(&pubkey(n))
}

fn key_pair(n: u8) -> KeyPair {
    let key = zcash_keys::keys::transparent::Key::new(secret(n), true);
    KeyPair {
        pubkey: pubkey(n).serialize().to_vec(),
        privkey: key.der_encode().expose_secret().clone(),
    }
}

fn sapling_master(n: u8) -> sapling_crypto::zip32::ExtendedSpendingKey {
    sapling_crypto::zip32::ExtendedSpendingKey::master(&[n; 32]).unwrap()
}

fn sapling_key(n: u8, seed_fp: Option<SeedFingerprint>, path: Option<&str>) -> SaplingKey {
    SaplingKey {
        extsk: sapling_master(n),
        seed_fp,
        hd_keypath: path.map(|path| path.to_string()),
    }
}

#[allow(deprecated)]
fn viewing_key(n: u8) -> sapling_crypto::zip32::ExtendedFullViewingKey {
    sapling_master(n).to_extended_full_viewing_key()
}

/// A transaction of the oldest version that pays to the hash of a public key.
fn transaction(block: u8, expiry_height: u32, to: u8) -> WalletTransaction {
    let mut raw = vec![1, 0, 0, 0, 0, 1, 5, 0, 0, 0, 0, 0, 0, 0, 25, 0x76, 0xa9, 0x14];
    raw.extend_from_slice(&[to; 20]);
    raw.extend_from_slice(&[0x88, 0xac, 0, 0, 0, 0]);
    WalletTransaction {
        hash_block: BlockHash { bytes: [block; 32] },
        expiry_height,
        raw,
    }
}

fn empty_wallet() -> Wallet {
    Wallet {
        network: Network::Main,
        mnemonic: String::new(),
        legacy_seed: None,
        transactions: vec![],
        keys: vec![],
        watch_scripts: vec![],
        redeem_scripts: vec![],
        unified_accounts: vec![],
        unified_addresses: 0,
        sapling_keys: vec![],
        sapling_viewing_keys: vec![],
        sprout_keys: 0,
        wallet_keys: 0,
    }
}

fn full_wallet() -> Wallet {
    Wallet {
        network: Network::Main,
        mnemonic: PHRASE.to_string(),
        legacy_seed: Some(vec![8; 32]),
        transactions: vec![
            transaction(1, 0, 1),
            transaction(0, 150, 2),
            transaction(2, 0, 3),
            transaction(1, 0, 4),
            transaction(3, 0, 5),
        ],
        keys: vec![key_pair(21), key_pair(22)],
        watch_scripts: vec![
            WatchScriptKind::P2PK(pubkey(31).serialize().to_vec()),
            WatchScriptKind::P2PKH,
            WatchScriptKind::P2PK(vec![0; 65]),
        ],
        redeem_scripts: vec![vec![0x51], vec![0x05], vec![0x52]],
        unified_accounts: vec![
            UnifiedAccount {
                seed_fingerprint: phrase_fp(),
                zip32_account_id: 0,
            },
            UnifiedAccount {
                seed_fingerprint: phrase_fp(),
                zip32_account_id: 3,
            },
        ],
        unified_addresses: 6,
        sapling_keys: vec![
            sapling_key(1, Some(phrase_fp()), Some("m/32'/133'/2147483647'/4'")),
            sapling_key(2, Some(fp(77)), None),
            sapling_key(3, None, None),
        ],
        sapling_viewing_keys: vec![viewing_key(1), viewing_key(4)],
        sprout_keys: 1,
        wallet_keys: 2,
    }
}

/// Answers what a migration asks for, and writes down what it was asked.
struct World {
    log: Vec<String>,
    sources: Vec<AccountSource>,
    tip: u32,
    tree_state: bool,
    existing_accounts: Vec<String>,
    supported_scripts: bool,
    receivers: Vec<TransparentAddress>,
    accounts: u8,
}

impl World {
    fn new() -> World {
        World {
            log: vec![],
            sources: vec![],
            tip: 1000,
            tree_state: true,
            existing_accounts: vec![],
            supported_scripts: true,
            receivers: vec![],
            accounts: 0,
        }
    }

    fn lookup(&self, lookup: &AccountLookup) -> String {
        match lookup {
            AccountLookup::ByDerivation(d) => format!(
                "derivation {:?} {} {:?}",
                &d.seed_fingerprint.bytes[..2],
                d.account_index,
                d.legacy_address_index
            ),
            AccountLookup::ByViewingKey(_) => "viewing key".to_string(),
        }
    }

    fn answer(&mut self, action: Action) -> Option<Event> {
        let (line, event) = match action {
            Action::Proceed => return Some(Event::Proceeded),
            Action::ReadAccountSources => (
                "sources".to_string(),
                Event::AccountSources(std::mem::take(&mut self.sources)),
            ),
            Action::StoreMnemonic { mnemonic } => (
                format!("store mnemonic {}", mnemonic.phrase()),
                Event::MnemonicStored(mnemonic.seed_fingerprint()),
            ),
            Action::ReadTip => ("tip".to_string(), Event::Tip(self.tip)),
            Action::FindBlock { hash } => (
                format!("block {}", hash.bytes[0]),
                // The third block is not in the main chain.
                Event::BlockFound(match hash.bytes[0] {
                    1 => Some(300),
                    2 => Some(250),
                    _ => None,
                }),
            ),
            Action::ReadTreeState {
                height,
                recover_until,
            } => (
                format!("tree state {height} {recover_until:?}"),
                Event::TreeState(if self.tree_state { Some(height) } else { None }),
            ),
            Action::UseEmptyTreeState { height } => {
                (format!("empty tree state {height}"), Event::Proceeded)
            }
            Action::ImportHdAccount {
                label,
                mnemonic,
                account_id,
                key_source,
            } => {
                assert_eq!(key_source, "zcashd_mnemonic");
                self.accounts += 1;
                (
                    format!(
                        "import {} of {} words as {account_id}",
                        label.text(),
                        mnemonic.phrase().split(' ').count()
                    ),
                    Event::AccountImported(AccountUuid {
                        bytes: [self.accounts; 16],
                    }),
                )
            }
            Action::AnnounceSeed { seed_fingerprint } => (
                format!("announce {:?}", &seed_fingerprint.bytes[..2]),
                Event::Proceeded,
            ),
            Action::StoreLegacySeed { seed } => (
                format!("store legacy seed of {} bytes", seed.len()),
                Event::LegacySeedStored(fp(99)),
            ),
            Action::FindAccount { lookup } => {
                let line = self.lookup(&lookup);
                let found = self.existing_accounts.contains(&line);
                (format!("find {line}"), Event::AccountFound(found))
            }
            Action::StoreSaplingKey { extsk } => (
                format!("store Sapling key of {} bytes", extsk.to_bytes().len()),
                Event::Proceeded,
            ),
            Action::ImportViewingKey {
                label,
                purpose,
                key_source,
                ..
            } => {
                assert_eq!(key_source, "zcashd_legacy");
                let purpose = match purpose {
                    AccountPurpose::Spending { derivation } => format!(
                        "spending {:?}",
                        derivation.map(|d| (d.account_index, d.legacy_address_index))
                    ),
                    AccountPurpose::ViewOnly => "viewing".to_string(),
                };
                (
                    format!("import {} for {purpose}", label.text()),
                    Event::Proceeded,
                )
            }
            Action::OpenEncryptor => ("encryptor".to_string(), Event::Proceeded),
            Action::EncryptKey { key } => {
                assert!(key.compressed);
                (
                    format!("encrypt {}", key.secret[0]),
                    Event::KeyEncrypted(pubkey(key.secret[0])),
                )
            }
            Action::StoreEncryptedKeys => ("store keys".to_string(), Event::Proceeded),
            Action::ImportPubkeys { account, pubkeys } => (
                format!("import {} pubkeys into {}", pubkeys.len(), account.bytes[0]),
                Event::Proceeded,
            ),
            Action::ImportScript { account, script } => (
                format!(
                    "import script {:?} into {}",
                    script.as_bytes(),
                    account.bytes[0]
                ),
                Event::ScriptImported(self.supported_scripts || script.as_bytes()[0] == 0x51),
            ),
            Action::ReadReceivers => (
                "receivers".to_string(),
                Event::Receivers(std::mem::take(&mut self.receivers)),
            ),
            Action::MarkExposed { marks } => (
                format!("mark {} at {}", marks.len(), marks[0].1),
                Event::Proceeded,
            ),
            Action::ReadScanContext => ("scan context".to_string(), Event::Proceeded),
            Action::StoreTransactions { transactions } => (
                format!(
                    "store {:?}",
                    transactions
                        .iter()
                        .map(|tx| (
                            tx.mined_height,
                            u32::from(tx.transaction.consensus_branch_id())
                        ))
                        .collect::<Vec<_>>()
                ),
                Event::Proceeded,
            ),
            Action::Finish => return None,
        };
        self.log.push(line);
        Some(event)
    }

    fn run(&mut self, mut migration: Migrator) -> Result<Migrator, MigrateError> {
        loop {
            match self.answer(migration.action()) {
                None => return Ok(migration),
                Some(event) => {
                    assert!(migration.accepts(&event));
                    assert!(migration.summary().is_none());
                    match migration.advance(event) {
                        Advance::Moved(next) => migration = next,
                        Advance::Failed(e) => return Err(e),
                        Advance::NotAwaited(_) => panic!("the event was accepted"),
                    }
                }
            }
        }
    }
}

fn start(wallet: Wallet, options: MigrationOptions) -> Migrator {
    Migrator::start(wallet, vec![], options, NetworkType::Main, upgrades())
        .ok()
        .unwrap()
}

fn message(error: MigrateError) -> (&'static str, Vec<String>) {
    match CommandError::from(error) {
        CommandError::Message(message) => (
            message.id,
            message
                .args
                .into_iter()
                .map(|(_, value)| match value {
                    ArgValue::Text(text) => text,
                    ArgValue::Number(n) => n.to_string(),
                    ArgValue::Absent => "-".to_string(),
                })
                .collect(),
        ),
        CommandError::Generic => ("", vec![]),
    }
}

#[test]
fn a_whole_migration() {
    let mut options = options();
    options.buffer_wallet_transactions = true;
    let migration = Migrator::start(
        full_wallet(),
        vec!["ckey".to_string(), "tx".to_string(), "ckey".to_string()],
        options,
        NetworkType::Main,
        upgrades(),
    )
    .ok()
    .unwrap();
    let mut world = World::new();
    world.supported_scripts = false;
    world.existing_accounts = vec![format!(
        "derivation {:?} 3 None",
        &phrase_fp().bytes[..2]
    )];
    world.receivers = vec![
        pubkey_address(21),
        pubkey_address(31),
        pubkey_address(99),
        TransparentAddress::PublicKeyHash([1; 20]),
    ];
    let migration = world.run(migration).ok().unwrap();
    let fp = format!("{:?}", &phrase_fp().bytes[..2]);
    let expected = vec![
        "sources".to_string(),
        format!("store mnemonic {PHRASE}"),
        "tip".to_string(),
        "block 1".to_string(),
        "block 2".to_string(),
        "block 3".to_string(),
        "tree state 249 Some(1000)".to_string(),
        "import zcashd post-v4.7.0 legacy transparent account 2147483647 of 12 words as \
         2147483647"
            .to_string(),
        format!("announce {fp}"),
        "store legacy seed of 32 bytes".to_string(),
        format!("find derivation {fp} 0 None"),
        "import zcashd imported unified account 0 of 12 words as 0".to_string(),
        format!("find derivation {fp} 3 None"),
        format!("find derivation {fp} 2147483647 Some(4)"),
        "import zcashd legacy sapling 0 for spending Some((2147483647, Some(4)))".to_string(),
        "store Sapling key of 169 bytes".to_string(),
        "find derivation [77, 77] 2147483647 None".to_string(),
        "import zcashd legacy sapling 1 for spending None".to_string(),
        "store Sapling key of 169 bytes".to_string(),
        "find viewing key".to_string(),
        "import zcashd legacy sapling 2 for spending None".to_string(),
        "find viewing key".to_string(),
        "import zcashd imported view-only sapling 0 for viewing".to_string(),
        "find viewing key".to_string(),
        "import zcashd imported view-only sapling 1 for viewing".to_string(),
        "encryptor".to_string(),
        "encrypt 21".to_string(),
        "encrypt 22".to_string(),
        "store keys".to_string(),
        "import 2 pubkeys into 1".to_string(),
        "import 1 pubkeys into 1".to_string(),
        "import script [81] into 1".to_string(),
        "import script [82] into 1".to_string(),
        "receivers".to_string(),
        "mark 2 at 250".to_string(),
        "scan context".to_string(),
        // Blossom has activated by the time of all but the second, which is unmined and expires
        // before that.
        "store [(Some(300), 733220448), (None, 1991772603), (Some(250), 733220448), \
         (Some(300), 733220448), (None, 733220448)]"
            .to_string(),
    ];
    assert_eq!(world.log, expected);

    let summary = migration.summary().unwrap();
    assert!(summary.mnemonic_seed);
    assert!(summary.legacy_hd_seed);
    assert_eq!(summary.unified_accounts, 2);
    assert_eq!(summary.sapling_spending, 3);
    assert_eq!(summary.sapling_standalone, 2);
    assert_eq!(summary.sapling_viewonly, 2);
    assert_eq!(summary.transparent_keys, 2);
    assert_eq!(summary.watchonly_pubkeys, 1);
    assert_eq!(summary.watchonly_scripts, 1);
    assert_eq!(summary.skipped_uncompressed_pubkeys, 1);
    assert_eq!(summary.skipped_p2pkh_address_only, 1);
    assert_eq!(summary.skipped_p2sh_address_only, 0);
    assert_eq!(summary.skipped_nonstandard, 0);
    assert_eq!(summary.skipped_unsupported_scripts, 1);
    assert_eq!(summary.err_malformed_pubkeys, 0);
    assert_eq!(summary.err_unparseable_scripts, 1);
    assert_eq!(summary.dropped_sprout_keys, 1);
    assert_eq!(summary.dropped_wkey_keys, 2);
    assert_eq!(summary.unified_address_meta_dropped, 6);
    assert_eq!(summary.unparsed_records.get("ckey"), 2);
    assert_eq!(summary.unparsed_records.get("tx"), 1);
}

#[test]
fn a_migration_without_a_chain() {
    let mut options = options();
    options.no_scan = true;
    let mut wallet = empty_wallet();
    wallet.mnemonic = PHRASE.to_string();
    wallet.keys = vec![key_pair(21)];
    wallet.transactions = vec![transaction(1, 1500, 1), transaction(0, 0, 2)];
    let migration = start(wallet, options);
    let mut world = World::new();
    world.receivers = vec![
        TransparentAddress::PublicKeyHash([2; 20]),
        TransparentAddress::PublicKeyHash([1; 20]),
        pubkey_address(21),
    ];
    let migration = world.run(migration).ok().unwrap();
    assert_eq!(
        world.log,
        vec![
            "sources".to_string(),
            format!("store mnemonic {PHRASE}"),
            "empty tree state 500".to_string(),
            "import zcashd post-v4.7.0 legacy transparent account 2147483647 of 12 words as \
             2147483647"
                .to_string(),
            format!("announce {:?}", &phrase_fp().bytes[..2]),
            "encryptor".to_string(),
            "encrypt 21".to_string(),
            "store keys".to_string(),
            "import 1 pubkeys into 1".to_string(),
            "receivers".to_string(),
            "mark 3 at 501".to_string(),
        ]
    );
    let summary = migration.summary().unwrap();
    assert!(!summary.legacy_hd_seed);
    assert_eq!(summary.transparent_keys, 1);
}

#[test]
fn imported_scripts_are_exposed() {
    let mut wallet = empty_wallet();
    wallet.mnemonic = PHRASE.to_string();
    wallet.redeem_scripts = vec![vec![0x51], vec![0x52]];
    let addresses: Vec<TransparentAddress> = collect_redeem_scripts(&wallet.redeem_scripts)
        .parsed
        .iter()
        .map(|script| redeem_address(script).unwrap())
        .collect();
    let migration = start(wallet, options());
    let mut world = World::new();
    world.supported_scripts = false;
    world.receivers = addresses;
    let migration = world.run(migration).ok().unwrap();
    assert!(world.log.contains(&"mark 1 at 1000".to_string()));
    let summary = migration.summary().unwrap();
    assert_eq!(summary.watchonly_scripts, 1);
    assert_eq!(summary.skipped_unsupported_scripts, 1);
}

#[test]
fn redeemed_scripts_are_not_skipped() {
    let mut wallet = empty_wallet();
    wallet.mnemonic = PHRASE.to_string();
    wallet.redeem_scripts = vec![vec![0x51]];
    let scripts = collect_redeem_scripts(&wallet.redeem_scripts).parsed;
    let hash = match redeem_address(&scripts[0]) {
        Some(TransparentAddress::ScriptHash(hash)) => hash,
        _ => panic!("a redeem script is addressed by its hash"),
    };
    wallet.watch_scripts = vec![WatchScriptKind::P2SH(hash)];
    let migration = World::new().run(start(wallet, options())).ok().unwrap();
    let summary = migration.summary().unwrap();
    assert_eq!(summary.watchonly_scripts, 1);
    assert_eq!(summary.skipped_p2sh_address_only, 0);
}

#[test]
fn keys_without_a_seed_are_stored() {
    let mut wallet = empty_wallet();
    wallet.mnemonic = PHRASE.to_string();
    wallet.keys = vec![key_pair(21)];
    wallet.sapling_keys = vec![sapling_key(3, None, None)];
    let mut world = World::new();
    let migration = world.run(start(wallet, options())).ok().unwrap();
    assert!(world
        .log
        .contains(&"store Sapling key of 169 bytes".to_string()));
    assert_eq!(migration.summary().unwrap().sapling_standalone, 1);
}

#[test]
fn accounts_are_imported_once() {
    let mut wallet = full_wallet();
    wallet.unified_accounts.truncate(1);
    wallet.sapling_keys = vec![sapling_key(3, None, None)];
    wallet.sapling_viewing_keys = vec![viewing_key(3)];
    let migration = start(wallet, options());
    let mut world = World::new();
    world.existing_accounts = vec![
        format!("derivation {:?} 0 None", &phrase_fp().bytes[..2]),
        "viewing key".to_string(),
    ];
    world.run(migration).ok().unwrap();
    let imports = world
        .log
        .iter()
        .filter(|line| line.starts_with("import zcashd"))
        .count();
    // Only the account that holds the transparent keys.
    assert_eq!(imports, 1);
}

#[test]
fn a_mnemonic_is_derived_from_the_legacy_seed() {
    let mut wallet = empty_wallet();
    wallet.legacy_seed = Some(vec![0; 32]);
    wallet.redeem_scripts = vec![vec![0x51]];
    wallet.sapling_keys = vec![sapling_key(1, Some(fp(99)), Some("m/32'/133'/0'"))];
    let migration = start(wallet, options());
    let mut world = World::new();
    world.tip = 0;
    let migration = world.run(migration).ok().unwrap();
    assert_eq!(
        world.log,
        vec![
            "sources".to_string(),
            "tip".to_string(),
            "tree state 99 None".to_string(),
            "store legacy seed of 32 bytes".to_string(),
            format!("store mnemonic {}art", "abandon ".repeat(23)),
            "import zcashd post-v4.7.0 legacy transparent account 2147483647 of 24 words as \
             2147483647"
                .to_string(),
            "find derivation [99, 99] 2147483647 None".to_string(),
            "import zcashd legacy sapling 0 for spending Some((0, None))".to_string(),
            "encryptor".to_string(),
            "store keys".to_string(),
            "import 0 pubkeys into 1".to_string(),
            "import 0 pubkeys into 1".to_string(),
            "import script [81] into 1".to_string(),
            "receivers".to_string(),
        ]
    );
    let summary = migration.summary().unwrap();
    assert!(!summary.mnemonic_seed);
    assert!(summary.legacy_hd_seed);
    assert_eq!(summary.sapling_standalone, 0);
    assert_eq!(summary.watchonly_scripts, 1);
}

#[test]
fn the_network_has_to_match() {
    let r = Migrator::start(
        full_wallet(),
        vec![],
        options(),
        NetworkType::Test,
        upgrades(),
    );
    assert_eq!(
        message(r.err().unwrap()),
        (
            "err-migrate-wallet-network-mismatch",
            vec!["main".to_string(), "test".to_string()]
        )
    );
}

fn fails(wallet: Wallet, options: MigrationOptions, world: &mut World) -> MigrateError {
    world.run(start(wallet, options)).err().unwrap()
}

#[test]
fn bad_mnemonic_ends_the_migration() {
    let mut wallet = full_wallet();
    wallet.mnemonic = "abandon".to_string();
    let mut world = World::new();
    assert_eq!(
        message(fails(wallet, options(), &mut world)).0,
        "err-migrate-wallet-invalid-mnemonic"
    );
    assert_eq!(world.log, vec!["sources"]);
}

#[test]
fn wallets_are_imported_once() {
    let source = |fp| AccountSource::Derived {
        seed_fingerprint: fp,
        key_source: Some("zcashd_mnemonic".to_string()),
    };
    let mut world = World::new();
    world.sources = vec![source(fp(5))];
    assert!(matches!(
        fails(full_wallet(), options(), &mut world),
        MigrateError::MultiImportDisabled
    ));
    assert_eq!(world.log.len(), 2);

    let mut many = options();
    many.allow_multiple_wallet_imports = true;
    let mut world = World::new();
    world.sources = vec![source(fp(5)), source(phrase_fp())];
    assert!(matches!(
        fails(full_wallet(), many, &mut world),
        MigrateError::DuplicateImport(seed) if seed.same(&phrase_fp())
    ));

    let mut world = World::new();
    world.sources = vec![source(fp(5))];
    assert!(world.run(start(full_wallet(), many)).is_ok());
}

#[test]
fn the_tree_state_has_to_be_there() {
    let mut world = World::new();
    world.tree_state = false;
    assert_eq!(
        message(fails(full_wallet(), options(), &mut world)),
        (
            "err-migrate-wallet-invalid-chain-data",
            vec!["missing tree state for height 249".to_string()]
        )
    );
}

#[test]
fn legacy_seed_has_to_make_a_mnemonic() {
    let mut wallet = empty_wallet();
    wallet.legacy_seed = Some(vec![0; 31]);
    wallet.keys = vec![key_pair(21)];
    let mut world = World::new();
    assert_eq!(
        message(fails(wallet, options(), &mut world)),
        ("err-failed-seed-fingerprinting", vec![])
    );
}

#[test]
fn account_identifiers_have_to_be_valid() {
    let mut wallet = full_wallet();
    wallet.unified_accounts[1].zip32_account_id = 0x8000_0001;
    assert!(matches!(
        fails(wallet, options(), &mut World::new()),
        MigrateError::AccountIdInvalid(0x8000_0001)
    ));
}

#[test]
fn key_paths_have_to_be_readable() {
    let mut wallet = full_wallet();
    wallet.sapling_keys = vec![sapling_key(1, None, Some("m"))];
    assert!(matches!(
        fails(wallet, options(), &mut World::new()),
        MigrateError::HdPath(_)
    ));
}

#[test]
fn keys_have_to_be_readable() {
    let mut wallet = full_wallet();
    wallet.keys[1].pubkey = vec![1];
    let mut world = World::new();
    assert!(matches!(
        fails(wallet, options(), &mut world),
        MigrateError::KeyError(_)
    ));
    assert_eq!(world.log.last().unwrap(), "encrypt 21");

    let mut wallet = full_wallet();
    wallet.keys[0].privkey = vec![0x30];
    assert_eq!(
        message(fails(wallet, options(), &mut World::new())),
        (
            "err-migrate-wallet-key-decoding",
            vec!["failed DER decoding".to_string()]
        )
    );
}

#[test]
fn transparent_keys_need_a_seed() {
    let mut wallet = empty_wallet();
    wallet.keys = vec![key_pair(21)];
    let mut world = World::new();
    assert!(matches!(
        fails(wallet, options(), &mut world),
        MigrateError::SeedNotAvailable
    ));
    assert_eq!(world.log.last().unwrap(), "store keys");
    // So does a wallet that has nothing to hold in the legacy account.
    let mut wallet = empty_wallet();
    wallet.mnemonic = PHRASE.to_string();
    assert!(matches!(
        fails(wallet, options(), &mut World::new()),
        MigrateError::SeedNotAvailable
    ));
}

#[test]
fn transactions_have_to_be_readable() {
    let mut no_scan = options();
    no_scan.no_scan = true;
    let mut wallet = full_wallet();
    wallet.transactions[2].raw = vec![1];
    assert!(matches!(
        fails(wallet, no_scan, &mut World::new()),
        MigrateError::Io(_)
    ));

    let mut buffer = options();
    buffer.buffer_wallet_transactions = true;
    let mut wallet = full_wallet();
    wallet.transactions[2].raw = vec![1];
    assert!(matches!(
        fails(wallet, buffer, &mut World::new()),
        MigrateError::Io(_)
    ));

    let mut wallet = full_wallet();
    wallet.transactions = vec![transaction(3, 0, 1)];
    assert_eq!(
        message(fails(wallet, buffer, &mut World::new())),
        ("err-migrate-wallet-all-unmined", vec![])
    );
}

#[test]
fn events_out_of_turn_are_not_taken() {
    let migration = start(full_wallet(), options());
    assert!(!migration.accepts(&Event::Proceeded));
    let migration = match migration.advance(Event::Tip(5)) {
        Advance::NotAwaited(migration) => migration,
        _ => panic!("the tip was not asked for"),
    };
    assert_eq!(migration.stage(), Stage::Accounts);
    let migration = match migration.advance(Event::AccountSources(vec![])) {
        Advance::Moved(migration) => migration,
        _ => panic!("the sources were asked for"),
    };
    assert_eq!(migration.stage(), Stage::StoreMnemonic);
    assert!(!migration.accepts(&Event::Proceeded));
    assert_eq!(migration.plan().wallet.transactions.len(), 5);
}

/// Runs a migration up to the stage at which it cannot go on.
fn stuck(wallet: Wallet, upgrades: NetworkUpgrades) -> Stage {
    let mut migration = Migrator::start(wallet, vec![], options(), NetworkType::Main, upgrades)
        .ok()
        .unwrap();
    let mut world = World::new();
    loop {
        let event = world.answer(migration.action()).unwrap();
        match migration.advance(event) {
            Advance::Moved(next) => migration = next,
            Advance::Failed(_) => panic!("the migration should not get so far"),
            Advance::NotAwaited(migration) => return migration.stage(),
        }
    }
}

#[test]
fn unified_accounts_come_from_the_mnemonic() {
    let mut wallet = full_wallet();
    wallet.unified_accounts[1].seed_fingerprint = fp(1);
    assert_eq!(stuck(wallet, upgrades()), Stage::Unified { idx: 1 });
    let mut wallet = full_wallet();
    wallet.mnemonic = String::new();
    assert_eq!(stuck(wallet, upgrades()), Stage::Unified { idx: 0 });
}

#[test]
fn sapling_has_to_activate() {
    let mut upgrades = upgrades();
    upgrades.sapling = None;
    assert_eq!(stuck(full_wallet(), upgrades), Stage::ChainTip);
}

#[test]
fn private_keys_have_to_have_a_version() {
    let mut wallet = full_wallet();
    wallet.keys[1].privkey = vec![0x30, 0x81, 0];
    assert_eq!(stuck(wallet, upgrades()), Stage::Key { idx: 1 });
}
