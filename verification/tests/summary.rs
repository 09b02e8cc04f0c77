use zallet_migrate::records::{dropped_spend_authority_label, RecordTally};
use zallet_migrate::summary::MigrationSummary;

fn empty_summary() -> MigrationSummary {
    MigrationSummary {
        mnemonic_seed: false,
        legacy_hd_seed: false,
        unified_accounts: 0,
        sapling_spending: 0,
        sapling_standalone: 0,
        sapling_viewonly: 0,
        transparent_keys: 0,
        watchonly_pubkeys: 0,
        watchonly_scripts: 0,
        skipped_uncompressed_pubkeys: 0,
        skipped_p2pkh_address_only: 0,
        skipped_p2sh_address_only: 0,
        skipped_nonstandard: 0,
        skipped_unsupported_scripts: 0,
        err_malformed_pubkeys: 0,
        err_unparseable_scripts: 0,
        dropped_sprout_keys: 0,
        dropped_wkey_keys: 0,
        unified_address_meta_dropped: 0,
        unparsed_records: RecordTally::new(),
    }
}

#[test]
fn encrypted_and_master_records_are_flagged_as_spend_authority() {
    // These are the record types that an encrypted zcashd wallet.dat stores
    // and that the parser cannot yet interpret; each must be surfaced.
    for keyname in [
        "ckey",
        "csapzkey",
        "czkey",
        "chdseed",
        "cmnemonicphrase",
        "mkey",
    ] {
        assert!(
            dropped_spend_authority_label(keyname).is_some(),
            "expected `{keyname}` to be flagged as dropped spend authority",
        );
    }
}

#[test]
fn benign_records_are_not_flagged_as_spend_authority() {
    for keyname in ["bestblock", "version", "name", "purpose", "destdata"] {
        assert!(dropped_spend_authority_label(keyname).is_none());
    }
}

#[test]
fn clean_migration_reports_no_dropped_spend_authority() {
    assert!(!empty_summary().any_dropped_spend_authority());
}

#[test]
fn dropped_sprout_or_wkey_keys_flag_spend_authority() {
    let mut sprout = empty_summary();
    sprout.dropped_sprout_keys = 1;
    assert!(sprout.any_dropped_spend_authority());

    let mut wkey = empty_summary();
    wkey.dropped_wkey_keys = 3;
    assert!(wkey.any_dropped_spend_authority());
}

#[test]
fn unparsed_encrypted_record_flags_spend_authority() {
    let mut summary = empty_summary();
    summary.unparsed_records.insert("csapzkey".to_string(), 2);
    assert!(summary.any_dropped_spend_authority());
}

#[test]
fn unparsed_benign_record_does_not_flag_spend_authority() {
    let mut summary = empty_summary();
    summary.unparsed_records.insert("destdata".to_string(), 5);
    assert!(!summary.any_dropped_spend_authority());
}

fn full_summary() -> MigrationSummary {
    let mut unparsed_records = RecordTally::new();
    unparsed_records.insert("mkey".to_string(), 1);
    unparsed_records.insert("ckey".to_string(), 20);
    unparsed_records.insert("purpose".to_string(), 7);
    unparsed_records.insert("destdata".to_string(), 5);
    MigrationSummary {
        mnemonic_seed: true,
        legacy_hd_seed: false,
        unified_accounts: 2,
        sapling_spending: 10,
        sapling_standalone: 3,
        sapling_viewonly: 4,
        transparent_keys: 105,
        watchonly_pubkeys: 6,
        watchonly_scripts: 7,
        skipped_uncompressed_pubkeys: 8,
        skipped_p2pkh_address_only: 9,
        skipped_p2sh_address_only: 10,
        skipped_nonstandard: 11,
        skipped_unsupported_scripts: 12,
        err_malformed_pubkeys: 13,
        err_unparseable_scripts: 14,
        dropped_sprout_keys: 15,
        dropped_wkey_keys: 16,
        unified_address_meta_dropped: 17,
        unparsed_records,
    }
}

#[test]
fn report_of_a_clean_migration() {
    let lines = empty_summary().report();
    let bar = "=".repeat(72);
    let stars = "*".repeat(72);
    assert_eq!(lines[0], "");
    assert_eq!(lines[1], bar);
    assert_eq!(lines[2], "zcashd -> Zallet migration summary");
    assert_eq!(lines[3], bar);
    assert_eq!(lines[4], "Imported into the Zallet wallet (wallet.db):");
    assert_eq!(lines[5], "  mnemonic seed ..................... no");
    assert_eq!(lines[6], "  legacy HD seed .................... no");
    assert_eq!(lines[7], "  unified accounts ................. 0");
    assert_eq!(
        lines[8],
        "  Sapling spending keys ............ 0 (standalone imported: 0)"
    );
    assert_eq!(lines[9], "  Sapling view-only keys ........... 0");
    assert_eq!(lines[10], "  transparent spending keys ........ 0");
    assert_eq!(lines[11], "  watch-only transparent pubkeys ... 0");
    assert_eq!(lines[12], "  watch-only redeem scripts ........ 0");
    // Nothing was skipped, so the reminder follows at once.
    assert_eq!(lines[13], "");
    assert_eq!(lines[14], stars);
    assert_eq!(lines[15], "BACK UP YOUR WALLETS — this is not optional");
    assert_eq!(lines[16], stars);
    assert_eq!(lines[17], "1. Your ORIGINAL zcashd wallet.dat:");
    assert_eq!(
        lines[lines.len() - 3],
        "     to every key held only in the Zallet wallet."
    );
    assert_eq!(lines[lines.len() - 2], stars);
    assert_eq!(lines[lines.len() - 1], "");
    assert_eq!(lines.len(), 41);
}

#[test]
fn report_of_a_migration_that_left_much_behind() {
    let lines = full_summary().report();
    let expected = [
        "Skipped (recognized but not migratable yet):",
        "  uncompressed watch-only pubkeys .. 8",
        "  P2PKH address-only watch entries . 9",
        "  P2SH address-only watch entries .. 10",
        "  non-standard watch scripts ....... 11",
        "  unsupported redeem scripts ....... 12",
        "",
        "Errors (malformed / unparseable, not migrated):",
        "  malformed watch-only pubkeys ..... 13",
        "  unparseable redeem scripts ....... 14",
        "",
        "Other wallet.dat records not migrated (not key material):",
        "  destdata ....... 5",
        "  purpose ....... 7",
        "",
        "Note: 17 previously-issued unified address(es) recorded by zcashd were",
        "not migrated. Newly generated addresses may repeat ones zcashd already",
        "handed out, and payments to some old transparent receivers may not be tracked.",
        "",
    ];
    assert_eq!(lines[5], "  mnemonic seed ..................... yes");
    assert_eq!(
        lines[8],
        "  Sapling spending keys ............ 10 (standalone imported: 3)"
    );
    assert_eq!(lines[10], "  transparent spending keys ........ 105");
    for (i, line) in expected.iter().enumerate() {
        assert_eq!(&lines[14 + i], line);
    }
    let warning = [
        "WARNING: SPEND AUTHORITY WAS NOT MIGRATED",
        "!!!!!!!!!!!!!!!!!!!!!!!!!!!!!!!!!!!!!!!!!!!!!!!!!!!!!!!!!!!!!!!!!!!!!!!!",
        "The following key material is present in your zcashd wallet.dat but was",
        "NOT imported into Zallet. Funds controlled by it can ONLY be spent using",
        "your original zcashd wallet.dat:",
        "  Sprout spending keys ............. 15 (Zallet does not support Sprout)",
        "  legacy `wkey` transparent keys ... 16",
        "  encrypted transparent spending keys (ckey) ... 20",
        "  wallet master encryption key (mkey) ... 1",
        "",
        "If your zcashd wallet was encrypted, its spending keys are stored in",
        "encrypted `ckey`/`csapzkey`/`czkey` records that this migration cannot yet",
        "read, and were NOT migrated.",
        "",
    ];
    let at = 14 + expected.len() + 1;
    assert_eq!(lines[at - 1], "!".repeat(72));
    for (i, line) in warning.iter().enumerate() {
        assert_eq!(&lines[at + i], line);
    }
    assert_eq!(lines[at + warning.len()], "*".repeat(72));
}

#[test]
fn report_warns_exactly_of_lost_spend_authority() {
    let title = "WARNING: SPEND AUTHORITY WAS NOT MIGRATED".to_string();
    assert!(!empty_summary().report().contains(&title));
    assert!(full_summary().report().contains(&title));
    let mut summary = empty_summary();
    summary.unparsed_records.insert("WARNING".to_string(), 1);
    assert!(!summary.report().contains(&title));
    summary.unparsed_records.insert("mkey".to_string(), 1);
    assert!(summary.report().contains(&title));
}

#[test]
fn only_nonzero_counts_are_shown() {
    let mut summary = empty_summary();
    summary.skipped_nonstandard = 2;
    let lines = summary.report();
    assert_eq!(lines[13], "");
    assert_eq!(lines[14], "Skipped (recognized but not migratable yet):");
    assert_eq!(lines[15], "  non-standard watch scripts ....... 2");
    assert_eq!(lines[16], "");
    assert_eq!(lines.len(), 41 + 3);
}

#[test]
fn tally_keeps_names_in_order() {
    let names: Vec<String> = ["tx", "ckey", "tx", "a", "tx", "", "Z"]
        .iter()
        .map(|name| name.to_string())
        .collect();
    let tally = zallet_migrate::records::tally_records(&names);
    assert_eq!(
        tally.entries,
        vec![
            ("".to_string(), 1),
            ("Z".to_string(), 1),
            ("a".to_string(), 1),
            ("ckey".to_string(), 1),
            ("tx".to_string(), 3),
        ]
    );
    assert_eq!(tally.get("tx"), 3);
    assert_eq!(tally.get("t"), 0);
}

#[test]
fn tally_counts_every_record() {
    let names: Vec<String> = (0..40u32).map(|n| format!("record{}", n % 7)).collect();
    let tally = zallet_migrate::records::tally_records(&names);
    assert_eq!(tally.entries.len(), 7);
    let counts: usize = tally.entries.iter().map(|(_, count)| *count).sum();
    assert_eq!(counts, 40);
}

#[test]
fn tally_insert_replaces() {
    let mut tally = RecordTally::new();
    assert_eq!(tally.insert("b".to_string(), 1), None);
    assert_eq!(tally.insert("a".to_string(), 2), None);
    assert_eq!(tally.insert("b".to_string(), 3), Some(1));
    assert_eq!(
        tally.entries,
        vec![("a".to_string(), 2), ("b".to_string(), 3)]
    );
}

#[test]
fn labels_name_the_record() {
    assert_eq!(
        dropped_spend_authority_label("czkey"),
        Some("encrypted Sprout spending keys (czkey)")
    );
    assert_eq!(
        dropped_spend_authority_label("cmnemonicphrase"),
        Some("encrypted mnemonic phrase (cmnemonicphrase)")
    );
    assert_eq!(dropped_spend_authority_label("ckey "), None);
    assert_eq!(dropped_spend_authority_label(""), None);
}
