//! What a migration imported, skipped, could not read and left behind, and the report of it.

use crate::records;
use crate::records::{dropped_spend_authority_label, RecordTally};
use crate::sequences;
use crate::text;
use crate::text::{decimal_text, push_count, push_line, push_text, repeat_text, yes_no_text};
use vstd::prelude::*;

verus! {

/// Human-readable tally of what the migration imported, skipped, or could not migrate. Reported at
/// the end of the migration so that the operator can see exactly which key material did and did
/// not make it into the Zallet wallet, and is reminded to retain the original `wallet.dat`.
#[derive(Debug)]
pub struct MigrationSummary {
    pub mnemonic_seed: bool,
    pub legacy_hd_seed: bool,
    pub unified_accounts: usize,
    pub sapling_spending: usize,
    pub sapling_standalone: usize,
    pub sapling_viewonly: usize,
    pub transparent_keys: usize,
    pub watchonly_pubkeys: usize,
    pub watchonly_scripts: usize,
    // Recognized but not representable in Zallet yet.
    pub skipped_uncompressed_pubkeys: usize,
    pub skipped_p2pkh_address_only: usize,
    pub skipped_p2sh_address_only: usize,
    pub skipped_nonstandard: usize,
    pub skipped_unsupported_scripts: usize,
    // Malformed / unparseable records.
    pub err_malformed_pubkeys: usize,
    pub err_unparseable_scripts: usize,
    // Spend authority present in wallet.dat but not migrated; funds controlled by it can only be
    // spent from the original wallet.dat.
    pub dropped_sprout_keys: usize,
    pub dropped_wkey_keys: usize,
    // Previously-issued unified address metadata that was not migrated. Not spend authority, but
    // its loss can cause address reuse and untracked transparent receivers.
    pub unified_address_meta_dropped: usize,
    /// All wallet.dat record types the parser could not interpret, by the zcashd record name
    /// (such as `ckey`, `csapzkey`, `czkey`).
    pub unparsed_records: RecordTally,
}

/// A line for a count that is shown only when it is not zero.
pub open spec fn count_line(label: Seq<char>, n: usize) -> Seq<Seq<char>> {
    if n > 0 {
        seq![label + text::decimal(n as nat)]
    } else {
        Seq::empty()
    }
}

/// The line for a record type that is not key material.
pub open spec fn other_record_line(entry: (Seq<char>, usize)) -> Seq<char> {
    "  "@ + entry.0 + " ....... "@ + text::decimal(entry.1 as nat)
}

/// The line for a record type that carries spend authority.
pub open spec fn spend_authority_line(entry: (Seq<char>, usize)) -> Seq<char> {
    "  "@ + records::spend_authority_label(entry.0).unwrap() + " ... "@ + text::decimal(
        entry.1 as nat,
    )
}

/// The lines for the record types that are not key material, in the order of their names.
pub open spec fn other_record_lines(entries: Seq<(Seq<char>, usize)>) -> Seq<Seq<char>> {
    entries.filter(
        |entry: (Seq<char>, usize)| records::spend_authority_label(entry.0) is None,
    ).map_values(|entry: (Seq<char>, usize)| other_record_line(entry))
}

/// The lines for the record types that carry spend authority, in the order of their names.
pub open spec fn spend_authority_lines(entries: Seq<(Seq<char>, usize)>) -> Seq<Seq<char>> {
    entries.filter(
        |entry: (Seq<char>, usize)| records::spend_authority_label(entry.0) is Some,
    ).map_values(|entry: (Seq<char>, usize)| spend_authority_line(entry))
}

impl MigrationSummary {
    /// The tally of records is in order.
    pub open spec fn wf(&self) -> bool {
        self.unparsed_records.wf()
    }

    /// Whether spend authority was present that the migration did not import.
    pub open spec fn drops_spend_authority(&self) -> bool {
        ||| self.dropped_sprout_keys > 0
        ||| self.dropped_wkey_keys > 0
        ||| exists|i: int|
            0 <= i < self.unparsed_records@.len() && records::spend_authority_label(
                #[trigger] self.unparsed_records@[i].0,
            ) is Some
    }


    /// The opening of the report: what was imported.
    pub open spec fn imported_lines(&self) -> Seq<Seq<char>> {
        let bar = text::repeat("="@, 72);
        seq![
            ""@,
            bar,
            "zcashd -> Zallet migration summary"@,
            bar,
            "Imported into the Zallet wallet (wallet.db):"@,
            "  mnemonic seed ..................... "@ + text::yes_no(self.mnemonic_seed),
            "  legacy HD seed .................... "@ + text::yes_no(self.legacy_hd_seed),
            "  unified accounts ................. "@ + text::decimal(self.unified_accounts as nat),
            "  Sapling spending keys ............ "@ + text::decimal(self.sapling_spending as nat)
                + " (standalone imported: "@ + text::decimal(self.sapling_standalone as nat) + ")"@,
            "  Sapling view-only keys ........... "@ + text::decimal(self.sapling_viewonly as nat),
            "  transparent spending keys ........ "@ + text::decimal(self.transparent_keys as nat),
            "  watch-only transparent pubkeys ... "@ + text::decimal(self.watchonly_pubkeys as nat),
            "  watch-only redeem scripts ........ "@ + text::decimal(self.watchonly_scripts as nat),
        ]
    }

    /// What was recognized but cannot be migrated yet; nothing when every count is zero.
    pub open spec fn skipped_lines(&self) -> Seq<Seq<char>> {
        let counts =
            count_line("  uncompressed watch-only pubkeys .. "@, self.skipped_uncompressed_pubkeys)
                + count_line("  P2PKH address-only watch entries . "@, self.skipped_p2pkh_address_only)
                + count_line("  P2SH address-only watch entries .. "@, self.skipped_p2sh_address_only)
                + count_line("  non-standard watch scripts ....... "@, self.skipped_nonstandard)
                + count_line("  unsupported redeem scripts ....... "@, self.skipped_unsupported_scripts);
        if counts.len() > 0 {
            seq![""@, "Skipped (recognized but not migratable yet):"@] + counts
        } else {
            Seq::empty()
        }
    }

    /// What was malformed or unparseable; nothing when both counts are zero.
    pub open spec fn error_lines(&self) -> Seq<Seq<char>> {
        let counts =
            count_line("  malformed watch-only pubkeys ..... "@, self.err_malformed_pubkeys)
                + count_line("  unparseable redeem scripts ....... "@, self.err_unparseable_scripts);
        if counts.len() > 0 {
            seq![""@, "Errors (malformed / unparseable, not migrated):"@] + counts
        } else {
            Seq::empty()
        }
    }

    /// The record types that were not interpreted and are not key material.
    pub open spec fn other_lines(&self) -> Seq<Seq<char>> {
        let lines = other_record_lines(self.unparsed_records@);
        if lines.len() > 0 {
            seq![""@, "Other wallet.dat records not migrated (not key material):"@] + lines
        } else {
            Seq::empty()
        }
    }

    /// The note on unified addresses that were issued before and not migrated.
    pub open spec fn address_note_lines(&self) -> Seq<Seq<char>> {
        if self.unified_address_meta_dropped > 0 {
            seq![
                ""@,
                "Note: "@ + text::decimal(self.unified_address_meta_dropped as nat)
                    + " previously-issued unified address(es) recorded by zcashd were"@,
                "not migrated. Newly generated addresses may repeat ones zcashd already"@,
                "handed out, and payments to some old transparent receivers may not be tracked."@,
            ]
        } else {
            Seq::empty()
        }
    }

    /// The line on Sprout keys, which is shown only when there are some.
    pub open spec fn sprout_lines(&self) -> Seq<Seq<char>> {
        if self.dropped_sprout_keys > 0 {
            seq![
                "  Sprout spending keys ............. "@ + text::decimal(
                    self.dropped_sprout_keys as nat,
                ) + " (Zallet does not support Sprout)"@,
            ]
        } else {
            Seq::empty()
        }
    }

    /// The warning that spend authority was left behind, and which.
    pub open spec fn warning_lines(&self) -> Seq<Seq<char>> {
        let bar = text::repeat("!"@, 72);
        if self.drops_spend_authority() {
            seq![
                ""@,
                bar,
                "WARNING: SPEND AUTHORITY WAS NOT MIGRATED"@,
                bar,
                "The following key material is present in your zcashd wallet.dat but was"@,
                "NOT imported into Zallet. Funds controlled by it can ONLY be spent using"@,
                "your original zcashd wallet.dat:"@,
            ] + self.sprout_lines() + count_line(
                "  legacy `wkey` transparent keys ... "@,
                self.dropped_wkey_keys,
            ) + spend_authority_lines(self.unparsed_records@) + seq![
                ""@,
                "If your zcashd wallet was encrypted, its spending keys are stored in"@,
                "encrypted `ckey`/`csapzkey`/`czkey` records that this migration cannot yet"@,
                "read, and were NOT migrated."@,
            ]
        } else {
            Seq::empty()
        }
    }

    /// The whole report, line by line.
    pub open spec fn report_lines(&self) -> Seq<Seq<char>> {
        self.imported_lines() + self.skipped_lines() + self.error_lines() + self.other_lines()
            + self.address_note_lines() + self.warning_lines() + backup_lines()
    }

    /// Whether spend authority was present that the migration did not import.
    pub fn any_dropped_spend_authority(&self) -> (r: bool)
        ensures
            r == self.drops_spend_authority(),
    {
        if self.dropped_sprout_keys > 0 || self.dropped_wkey_keys > 0 {
            return true;
        }
        let mut i: usize = 0;
        while i < self.unparsed_records.entries.len()
            invariant
                i <= self.unparsed_records@.len(),
                self.unparsed_records@.len() == self.unparsed_records.entries@.len(),
                self.dropped_sprout_keys == 0,
                self.dropped_wkey_keys == 0,
                forall|j: int|
                    0 <= j < i ==> records::spend_authority_label(
                        #[trigger] self.unparsed_records@[j].0,
                    ) is None,
            decreases self.unparsed_records@.len() - i,
        {
            assert(self.unparsed_records@[i as int].0 == self.unparsed_records.entries@[i as int].0@);
            if dropped_spend_authority_label(self.unparsed_records.entries[i].0.as_str()).is_some() {
                return true;
            }
            i = i + 1;
        }
        false
    }

    fn push_imported(&self, lines: &mut Vec<String>)
        ensures
            text::texts(final(lines)@) == text::texts(old(lines)@) + self.imported_lines(),
    {
        let bar: String = repeat_text("=", 72);
        push_text(lines, "");
        push_text(lines, bar.as_str());
        push_text(lines, "zcashd -> Zallet migration summary");
        push_text(lines, bar.as_str());
        push_text(lines, "Imported into the Zallet wallet (wallet.db):");
        let mut mnemonic: String = "  mnemonic seed ..................... ".to_owned();
        mnemonic.append(yes_no_text(self.mnemonic_seed));
        push_line(lines, mnemonic);
        let mut legacy: String = "  legacy HD seed .................... ".to_owned();
        legacy.append(yes_no_text(self.legacy_hd_seed));
        push_line(lines, legacy);
        push_count(lines, "  unified accounts ................. ", self.unified_accounts);
        let mut sapling: String = "  Sapling spending keys ............ ".to_owned();
        sapling.append(decimal_text(self.sapling_spending as u64).as_str());
        sapling.append(" (standalone imported: ");
        sapling.append(decimal_text(self.sapling_standalone as u64).as_str());
        sapling.append(")");
        push_line(lines, sapling);
        push_count(lines, "  Sapling view-only keys ........... ", self.sapling_viewonly);
        push_count(lines, "  transparent spending keys ........ ", self.transparent_keys);
        push_count(lines, "  watch-only transparent pubkeys ... ", self.watchonly_pubkeys);
        push_count(lines, "  watch-only redeem scripts ........ ", self.watchonly_scripts);
        proof {
            assert(text::texts(lines@) =~= text::texts(old(lines)@) + self.imported_lines());
        }
    }

    fn push_skipped(&self, lines: &mut Vec<String>)
        ensures
            text::texts(final(lines)@) == text::texts(old(lines)@) + self.skipped_lines(),
    {
        if self.skipped_uncompressed_pubkeys > 0
            || self.skipped_p2pkh_address_only > 0
            || self.skipped_p2sh_address_only > 0
            || self.skipped_nonstandard > 0
            || self.skipped_unsupported_scripts > 0 {
            push_text(lines, "");
            push_text(lines, "Skipped (recognized but not migratable yet):");
            push_nonzero(lines, "  uncompressed watch-only pubkeys .. ", self.skipped_uncompressed_pubkeys);
            push_nonzero(lines, "  P2PKH address-only watch entries . ", self.skipped_p2pkh_address_only);
            push_nonzero(lines, "  P2SH address-only watch entries .. ", self.skipped_p2sh_address_only);
            push_nonzero(lines, "  non-standard watch scripts ....... ", self.skipped_nonstandard);
            push_nonzero(lines, "  unsupported redeem scripts ....... ", self.skipped_unsupported_scripts);
        }
        proof {
            assert(text::texts(lines@) =~= text::texts(old(lines)@) + self.skipped_lines());
        }
    }

    fn push_errors(&self, lines: &mut Vec<String>)
        ensures
            text::texts(final(lines)@) == text::texts(old(lines)@) + self.error_lines(),
    {
        if self.err_malformed_pubkeys > 0 || self.err_unparseable_scripts > 0 {
            push_text(lines, "");
            push_text(lines, "Errors (malformed / unparseable, not migrated):");
            push_nonzero(lines, "  malformed watch-only pubkeys ..... ", self.err_malformed_pubkeys);
            push_nonzero(lines, "  unparseable redeem scripts ....... ", self.err_unparseable_scripts);
        }
        proof {
            assert(text::texts(lines@) =~= text::texts(old(lines)@) + self.error_lines());
        }
    }

    fn push_others(&self, lines: &mut Vec<String>)
        ensures
            text::texts(final(lines)@) == text::texts(old(lines)@) + self.other_lines(),
    {
        let ghost entries = self.unparsed_records@;
        let mut others: Vec<String> = Vec::new();
        let mut i: usize = 0;
        proof {
            assert(text::texts(others@) =~= other_record_lines(entries.take(0)));
        }
        while i < self.unparsed_records.entries.len()
            invariant
                i <= entries.len(),
                entries == self.unparsed_records@,
                entries.len() == self.unparsed_records.entries@.len(),
                text::texts(others@) == other_record_lines(entries.take(i as int)),
            decreases entries.len() - i,
        {
            let name = self.unparsed_records.entries[i].0.as_str();
            let count: usize = self.unparsed_records.entries[i].1;
            proof {
                assert(entries[i as int] == (name@, count));
                other_record_lines_step(entries, i as int);
            }
            if dropped_spend_authority_label(name).is_none() {
                let mut line: String = "  ".to_owned();
                line.append(name);
                line.append(" ....... ");
                line.append(decimal_text(count as u64).as_str());
                push_line(&mut others, line);
            }
            i = i + 1;
        }
        proof {
            assert(entries.take(i as int) =~= entries);
        }
        if others.len() > 0 {
            push_text(lines, "");
            push_text(lines, "Other wallet.dat records not migrated (not key material):");
            append_lines(lines, others);
        }
        proof {
            assert(text::texts(lines@) =~= text::texts(old(lines)@) + self.other_lines());
        }
    }

    fn push_address_note(&self, lines: &mut Vec<String>)
        ensures
            text::texts(final(lines)@) == text::texts(old(lines)@) + self.address_note_lines(),
    {
        if self.unified_address_meta_dropped > 0 {
            push_text(lines, "");
            let mut note: String = "Note: ".to_owned();
            note.append(decimal_text(self.unified_address_meta_dropped as u64).as_str());
            note.append(" previously-issued unified address(es) recorded by zcashd were");
            push_line(lines, note);
            push_text(
                lines,
                "not migrated. Newly generated addresses may repeat ones zcashd already",
            );
            push_text(
                lines,
                "handed out, and payments to some old transparent receivers may not be tracked.",
            );
        }
        proof {
            assert(text::texts(lines@) =~= text::texts(old(lines)@) + self.address_note_lines());
        }
    }

    fn push_warning(&self, lines: &mut Vec<String>)
        ensures
            text::texts(final(lines)@) == text::texts(old(lines)@) + self.warning_lines(),
    {
        if self.any_dropped_spend_authority() {
            let bar: String = repeat_text("!", 72);
            push_text(lines, "");
            push_text(lines, bar.as_str());
            push_text(lines, "WARNING: SPEND AUTHORITY WAS NOT MIGRATED");
            push_text(lines, bar.as_str());
            push_text(lines, "The following key material is present in your zcashd wallet.dat but was");
            push_text(lines, "NOT imported into Zallet. Funds controlled by it can ONLY be spent using");
            push_text(lines, "your original zcashd wallet.dat:");
            if self.dropped_sprout_keys > 0 {
                let mut sprout: String = "  Sprout spending keys ............. ".to_owned();
                sprout.append(decimal_text(self.dropped_sprout_keys as u64).as_str());
                sprout.append(" (Zallet does not support Sprout)");
                push_line(lines, sprout);
            }
            push_nonzero(
                lines,
                "  legacy `wkey` transparent keys ... ",
                self.dropped_wkey_keys,
            );
            self.push_spend_authority(lines);
            push_text(lines, "");
            push_text(
                lines,
                "If your zcashd wallet was encrypted, its spending keys are stored in",
            );
            push_text(
                lines,
                "encrypted `ckey`/`csapzkey`/`czkey` records that this migration cannot yet",
            );
            push_text(lines, "read, and were NOT migrated.");
        }
        proof {
            assert(text::texts(lines@) =~= text::texts(old(lines)@) + self.warning_lines());
        }
    }

    fn push_spend_authority(&self, lines: &mut Vec<String>)
        ensures
            text::texts(final(lines)@) == text::texts(old(lines)@) + spend_authority_lines(
                self.unparsed_records@,
            ),
    {
        let ghost entries = self.unparsed_records@;
        let ghost before = text::texts(lines@);
        let mut i: usize = 0;
        proof {
            assert(before =~= before + spend_authority_lines(entries.take(0)));
        }
        while i < self.unparsed_records.entries.len()
            invariant
                i <= entries.len(),
                entries == self.unparsed_records@,
                entries.len() == self.unparsed_records.entries@.len(),
                text::texts(lines@) == before + spend_authority_lines(entries.take(i as int)),
            decreases entries.len() - i,
        {
            let name = self.unparsed_records.entries[i].0.as_str();
            let count: usize = self.unparsed_records.entries[i].1;
            proof {
                assert(entries[i as int] == (name@, count));
                spend_authority_lines_step(entries, i as int);
            }
            match dropped_spend_authority_label(name) {
                Some(label) => {
                    let mut line: String = "  ".to_owned();
                    line.append(label);
                    line.append(" ... ");
                    line.append(decimal_text(count as u64).as_str());
                    push_line(lines, line);
                    proof {
                        assert(text::texts(lines@) =~= before + spend_authority_lines(
                            entries.take(i + 1),
                        ));
                    }
                },
                None => {},
            }
            i = i + 1;
        }
        proof {
            assert(entries.take(i as int) =~= entries);
        }
    }

    /// The report of the migration, with the always-on reminder to back up both the original
    /// `wallet.dat` and the new Zallet wallet (`wallet.db` plus its age encryption identity file).
    pub fn report(&self) -> (r: Vec<String>)
        ensures
            text::texts(r@) == self.report_lines(),
    {
        let mut lines: Vec<String> = Vec::new();
        proof {
            assert(text::texts(lines@) =~= Seq::empty());
        }
        self.push_imported(&mut lines);
        self.push_skipped(&mut lines);
        self.push_errors(&mut lines);
        self.push_others(&mut lines);
        self.push_address_note(&mut lines);
        self.push_warning(&mut lines);
        push_backup(&mut lines);
        proof {
            assert(text::texts(lines@) =~= self.report_lines());
        }
        lines
    }
}

/// The reminder to back up both wallets.
pub open spec fn backup_lines() -> Seq<Seq<char>> {
    let bar = text::repeat("*"@, 72);
    seq![
        ""@,
        bar,
        "BACK UP YOUR WALLETS — this is not optional"@,
        bar,
        "1. Your ORIGINAL zcashd wallet.dat:"@,
        "   * Do NOT delete or discard it. Keep a secure backup (copying it to"@,
        "     safe storage is fine and encouraged)."@,
        "   * This migration is alpha and does not import every kind of key. For"@,
        "     any key that was NOT migrated, wallet.dat is the ONLY copy: that key"@,
        "     material was never written to the Zallet wallet.db."@,
        "   * If you lose wallet.dat, funds whose keys were not migrated are"@,
        "     PERMANENTLY UNRECOVERABLE, even if your Zallet wallet.db is intact."@,
        "2. Your NEW Zallet wallet:"@,
        "   * The Zallet wallet.db holds spending keys that CANNOT be recovered"@,
        "     from any seed phrase (standalone imported keys, legacy seeds, and"@,
        "     migrated transparent keys). `zallet export-mnemonic` does NOT back"@,
        "     these up."@,
        "   * There is currently no backup RPC or command. To back up the Zallet"@,
        "     wallet, make a secure copy of BOTH:"@,
        "       - the wallet database file (wallet.db in your datadir), and"@,
        "       - the age encryption identity file (the file named by the"@,
        "         keystore.encryption_identity config option). wallet.db is"@,
        "         encrypted to it and cannot be decrypted without it (plus its"@,
        "         passphrase, if the identity is passphrase-encrypted)."@,
        "   * Losing either the wallet.db or its identity file means losing access"@,
        "     to every key held only in the Zallet wallet."@,
        bar,
        ""@,
    ]
}

fn push_backup(lines: &mut Vec<String>)
    ensures
        text::texts(final(lines)@) == text::texts(old(lines)@) + backup_lines(),
{
    let bar: String = repeat_text("*", 72);
    push_text(lines, "");
    push_text(lines, bar.as_str());
    push_text(lines, "BACK UP YOUR WALLETS — this is not optional");
    push_text(lines, bar.as_str());
    push_text(lines, "1. Your ORIGINAL zcashd wallet.dat:");
    push_text(lines, "   * Do NOT delete or discard it. Keep a secure backup (copying it to");
    push_text(lines, "     safe storage is fine and encouraged).");
    push_text(lines, "   * This migration is alpha and does not import every kind of key. For");
    push_text(lines, "     any key that was NOT migrated, wallet.dat is the ONLY copy: that key");
    push_text(lines, "     material was never written to the Zallet wallet.db.");
    push_text(lines, "   * If you lose wallet.dat, funds whose keys were not migrated are");
    push_text(lines, "     PERMANENTLY UNRECOVERABLE, even if your Zallet wallet.db is intact.");
    push_text(lines, "2. Your NEW Zallet wallet:");
    push_text(lines, "   * The Zallet wallet.db holds spending keys that CANNOT be recovered");
    push_text(lines, "     from any seed phrase (standalone imported keys, legacy seeds, and");
    push_text(lines, "     migrated transparent keys). `zallet export-mnemonic` does NOT back");
    push_text(lines, "     these up.");
    push_text(lines, "   * There is currently no backup RPC or command. To back up the Zallet");
    push_text(lines, "     wallet, make a secure copy of BOTH:");
    push_text(lines, "       - the wallet database file (wallet.db in your datadir), and");
    push_text(lines, "       - the age encryption identity file (the file named by the");
    push_text(lines, "         keystore.encryption_identity config option). wallet.db is");
    push_text(lines, "         encrypted to it and cannot be decrypted without it (plus its");
    push_text(lines, "         passphrase, if the identity is passphrase-encrypted).");
    push_text(lines, "   * Losing either the wallet.db or its identity file means losing access");
    push_text(lines, "     to every key held only in the Zallet wallet.");
    push_text(lines, bar.as_str());
    push_text(lines, "");
    proof {
        assert(text::texts(lines@) =~= text::texts(old(lines)@) + backup_lines());
    }
}

/// Appends the line for a count, unless it is zero.
fn push_nonzero(lines: &mut Vec<String>, label: &str, n: usize)
    ensures
        text::texts(final(lines)@) == text::texts(old(lines)@) + count_line(label@, n),
{
    if n > 0 {
        push_count(lines, label, n);
    }
    proof {
        assert(text::texts(lines@) =~= text::texts(old(lines)@) + count_line(label@, n));
    }
}

/// Appends all the lines of `more`.
fn append_lines(lines: &mut Vec<String>, mut more: Vec<String>)
    ensures
        text::texts(final(lines)@) == text::texts(old(lines)@) + text::texts(more@),
{
    let ghost added = more@;
    lines.append(&mut more);
    proof {
        assert(text::texts(lines@) =~= text::texts(old(lines)@) + text::texts(added));
    }
}

/// Every record type that was not interpreted has a line of its own in the report: among the lost
/// spend authority if it carries any, and among the other records if it does not.
pub proof fn every_record_is_reported(summary: MigrationSummary, i: int)
    requires
        0 <= i < summary.unparsed_records@.len(),
    ensures
        records::spend_authority_label(summary.unparsed_records@[i].0) is Some
            ==> summary.warning_lines().contains(
            spend_authority_line(summary.unparsed_records@[i]),
        ) && summary.report_lines().contains(spend_authority_line(summary.unparsed_records@[i])),
        records::spend_authority_label(summary.unparsed_records@[i].0) is None
            ==> summary.other_lines().contains(other_record_line(summary.unparsed_records@[i]))
            && summary.report_lines().contains(other_record_line(summary.unparsed_records@[i])),
{
    let entries = summary.unparsed_records@;
    let entry = entries[i];
    let report = summary.report_lines();
    let warning_at = summary.imported_lines().len() + summary.skipped_lines().len()
        + summary.error_lines().len() + summary.other_lines().len()
        + summary.address_note_lines().len();
    let others_at = summary.imported_lines().len() + summary.skipped_lines().len()
        + summary.error_lines().len();
    if records::spend_authority_label(entry.0) is Some {
        let pred = |entry: (Seq<char>, usize)| records::spend_authority_label(entry.0) is Some;
        sequences::filter_keeps(entries, pred, entry);
        let j = entries.filter(pred).index_of(entry);
        let lines = spend_authority_lines(entries);
        assert(lines[j] == spend_authority_line(entry));
        assert(summary.drops_spend_authority());
        let k = 7 + summary.sprout_lines().len() + count_line(
            "  legacy `wkey` transparent keys ... "@,
            summary.dropped_wkey_keys,
        ).len() + j;
        assert(summary.warning_lines()[k] == lines[j]);
        assert(report[warning_at + k] == lines[j]);
    } else {
        let pred = |entry: (Seq<char>, usize)| records::spend_authority_label(entry.0) is None;
        sequences::filter_keeps(entries, pred, entry);
        let j = entries.filter(pred).index_of(entry);
        let lines = other_record_lines(entries);
        assert(lines[j] == other_record_line(entry));
        assert(summary.other_lines()[2 + j] == lines[j]);
        assert(report[others_at + 2 + j] == lines[j]);
    }
}

/// Whatever the migration did, the report ends with the reminder to back up both wallets.
pub proof fn report_ends_with_backup_reminder(summary: MigrationSummary)
    ensures
        backup_lines().is_suffix_of(summary.report_lines()),
{
    let report = summary.report_lines();
    assert(report.subrange(report.len() - backup_lines().len(), report.len() as int)
        =~= backup_lines());
}

/// The report warns of lost spend authority exactly when some was lost.
pub proof fn report_warns_exactly_of_lost_spend_authority(summary: MigrationSummary)
    ensures
        summary.report_lines().contains("WARNING: SPEND AUTHORITY WAS NOT MIGRATED"@)
            <==> summary.drops_spend_authority(),
{
    let report = summary.report_lines();
    let before = summary.imported_lines() + summary.skipped_lines() + summary.error_lines()
        + summary.other_lines() + summary.address_note_lines();
    let title = "WARNING: SPEND AUTHORITY WAS NOT MIGRATED"@;
    if summary.drops_spend_authority() {
        assert(summary.warning_lines()[2] == title);
        assert(report[before.len() as int + 2] == title);
    } else {
        reveal_strlit("WARNING: SPEND AUTHORITY WAS NOT MIGRATED");
        imported_lines_are_no_warning(summary);
        problem_lines_are_no_warning(summary);
        note_lines_are_no_warning(summary);
        backup_lines_are_no_warning();
        assert(report =~= before + backup_lines());
        assert forall|i: int| 0 <= i < report.len() implies #[trigger] report[i] != title by {
            assert(no_warning(report[i]));
        }
    }
}

/// A line that does not begin as a warning does.
spec fn no_warning(line: Seq<char>) -> bool {
    line.len() == 0 || line[0] != 'W'
}

proof fn repeat_is_no_warning(piece: Seq<char>, n: nat)
    requires
        piece.len() > 0,
        piece[0] != 'W',
    ensures
        no_warning(text::repeat(piece, n)),
    decreases n,
{
    if n > 0 {
        repeat_is_no_warning(piece, (n - 1) as nat);
        let shorter = text::repeat(piece, (n - 1) as nat);
        if shorter.len() == 0 {
            assert((shorter + piece)[0] == piece[0]);
        } else {
            assert((shorter + piece)[0] == shorter[0]);
        }
    }
}

proof fn imported_lines_are_no_warning(summary: MigrationSummary)
    ensures
        forall|i: int|
            0 <= i < summary.imported_lines().len() ==> no_warning(
                #[trigger] summary.imported_lines()[i],
            ),
{
    reveal_strlit("");
    reveal_strlit("zcashd -> Zallet migration summary");
    reveal_strlit("Imported into the Zallet wallet (wallet.db):");
    reveal_strlit("  mnemonic seed ..................... ");
    reveal_strlit("  legacy HD seed .................... ");
    reveal_strlit("  unified accounts ................. ");
    reveal_strlit("  Sapling spending keys ............ ");
    reveal_strlit(" (standalone imported: ");
    reveal_strlit(")");
    reveal_strlit("  Sapling view-only keys ........... ");
    reveal_strlit("  transparent spending keys ........ ");
    reveal_strlit("  watch-only transparent pubkeys ... ");
    reveal_strlit("  watch-only redeem scripts ........ ");
    reveal_strlit("=");
    repeat_is_no_warning("="@, 72);
}

proof fn problem_lines_are_no_warning(summary: MigrationSummary)
    ensures
        forall|i: int|
            0 <= i < summary.skipped_lines().len() ==> no_warning(
                #[trigger] summary.skipped_lines()[i],
            ),
        forall|i: int|
            0 <= i < summary.error_lines().len() ==> no_warning(
                #[trigger] summary.error_lines()[i],
            ),
{
    reveal_strlit("  uncompressed watch-only pubkeys .. ");
    reveal_strlit("  P2PKH address-only watch entries . ");
    reveal_strlit("  P2SH address-only watch entries .. ");
    reveal_strlit("  non-standard watch scripts ....... ");
    reveal_strlit("  unsupported redeem scripts ....... ");
    reveal_strlit("");
    reveal_strlit("Skipped (recognized but not migratable yet):");
    reveal_strlit("  malformed watch-only pubkeys ..... ");
    reveal_strlit("  unparseable redeem scripts ....... ");
    reveal_strlit("Errors (malformed / unparseable, not migrated):");
}

proof fn note_lines_are_no_warning(summary: MigrationSummary)
    ensures
        forall|i: int|
            0 <= i < summary.other_lines().len() ==> no_warning(
                #[trigger] summary.other_lines()[i],
            ),
        forall|i: int|
            0 <= i < summary.address_note_lines().len() ==> no_warning(
                #[trigger] summary.address_note_lines()[i],
            ),
{
    reveal_strlit("");
    reveal_strlit("Other wallet.dat records not migrated (not key material):");
    reveal_strlit("Note: ");
    reveal_strlit(" previously-issued unified address(es) recorded by zcashd were");
    reveal_strlit("not migrated. Newly generated addresses may repeat ones zcashd already");
    reveal_strlit("handed out, and payments to some old transparent receivers may not be tracked.");
    reveal_strlit("  ");
}

proof fn backup_lines_are_no_warning()
    ensures
        forall|i: int| 0 <= i < backup_lines().len() ==> no_warning(#[trigger] backup_lines()[i]),
{
    reveal_strlit("");
    reveal_strlit("BACK UP YOUR WALLETS — this is not optional");
    reveal_strlit("1. Your ORIGINAL zcashd wallet.dat:");
    reveal_strlit("   * Do NOT delete or discard it. Keep a secure backup (copying it to");
    reveal_strlit("     safe storage is fine and encouraged).");
    reveal_strlit("   * This migration is alpha and does not import every kind of key. For");
    reveal_strlit("     any key that was NOT migrated, wallet.dat is the ONLY copy: that key");
    reveal_strlit("     material was never written to the Zallet wallet.db.");
    reveal_strlit("   * If you lose wallet.dat, funds whose keys were not migrated are");
    reveal_strlit("     PERMANENTLY UNRECOVERABLE, even if your Zallet wallet.db is intact.");
    reveal_strlit("2. Your NEW Zallet wallet:");
    reveal_strlit("   * The Zallet wallet.db holds spending keys that CANNOT be recovered");
    reveal_strlit("     from any seed phrase (standalone imported keys, legacy seeds, and");
    reveal_strlit("     migrated transparent keys). `zallet export-mnemonic` does NOT back");
    reveal_strlit("     these up.");
    reveal_strlit("   * There is currently no backup RPC or command. To back up the Zallet");
    reveal_strlit("     wallet, make a secure copy of BOTH:");
    reveal_strlit("       - the wallet database file (wallet.db in your datadir), and");
    reveal_strlit("       - the age encryption identity file (the file named by the");
    reveal_strlit("         keystore.encryption_identity config option). wallet.db is");
    reveal_strlit("         encrypted to it and cannot be decrypted without it (plus its");
    reveal_strlit("         passphrase, if the identity is passphrase-encrypted).");
    reveal_strlit("   * Losing either the wallet.db or its identity file means losing access");
    reveal_strlit("     to every key held only in the Zallet wallet.");
    reveal_strlit("*");
    repeat_is_no_warning("*"@, 72);
}

proof fn other_record_lines_step(entries: Seq<(Seq<char>, usize)>, i: int)
    requires
        0 <= i < entries.len(),
    ensures
        other_record_lines(entries.take(i + 1)) == if records::spend_authority_label(
            entries[i].0,
        ) is None {
            other_record_lines(entries.take(i)).push(other_record_line(entries[i]))
        } else {
            other_record_lines(entries.take(i))
        },
{
    sequences::filter_step(
        entries,
        i,
        |entry: (Seq<char>, usize)| records::spend_authority_label(entry.0) is None,
    );
    assert(other_record_lines(entries.take(i + 1)) =~= if records::spend_authority_label(
        entries[i].0,
    ) is None {
        other_record_lines(entries.take(i)).push(other_record_line(entries[i]))
    } else {
        other_record_lines(entries.take(i))
    });
}

proof fn spend_authority_lines_step(entries: Seq<(Seq<char>, usize)>, i: int)
    requires
        0 <= i < entries.len(),
    ensures
        spend_authority_lines(entries.take(i + 1)) == if records::spend_authority_label(
            entries[i].0,
        ) is Some {
            spend_authority_lines(entries.take(i)).push(spend_authority_line(entries[i]))
        } else {
            spend_authority_lines(entries.take(i))
        },
{
    sequences::filter_step(
        entries,
        i,
        |entry: (Seq<char>, usize)| records::spend_authority_label(entry.0) is Some,
    );
    assert(spend_authority_lines(entries.take(i + 1)) =~= if records::spend_authority_label(
        entries[i].0,
    ) is Some {
        spend_authority_lines(entries.take(i)).push(spend_authority_line(entries[i]))
    } else {
        spend_authority_lines(entries.take(i))
    });
}

/// The report opens with what was imported: the answers for the two seeds, and the numbers of what
/// came in, each in its place.
pub proof fn report_opens_with_what_was_imported(summary: MigrationSummary, r: Vec<String>)
    requires
        call_ensures(MigrationSummary::report, (&summary,), r),
    ensures
        r@.len() >= 41,
        r@[2]@ == "zcashd -> Zallet migration summary"@,
        r@[4]@ == "Imported into the Zallet wallet (wallet.db):"@,
        r@[5]@ == "  mnemonic seed ..................... "@ + if summary.mnemonic_seed {
            "yes"@
        } else {
            "no"@
        },
        r@[6]@ == "  legacy HD seed .................... "@ + if summary.legacy_hd_seed {
            "yes"@
        } else {
            "no"@
        },
        r@[7]@ == "  unified accounts ................. "@ + text::decimal(
            summary.unified_accounts as nat,
        ),
        r@[9]@ == "  Sapling view-only keys ........... "@ + text::decimal(
            summary.sapling_viewonly as nat,
        ),
        r@[10]@ == "  transparent spending keys ........ "@ + text::decimal(
            summary.transparent_keys as nat,
        ),
        r@[11]@ == "  watch-only transparent pubkeys ... "@ + text::decimal(
            summary.watchonly_pubkeys as nat,
        ),
        r@[12]@ == "  watch-only redeem scripts ........ "@ + text::decimal(
            summary.watchonly_scripts as nat,
        ),
        r@[8]@ == "  Sapling spending keys ............ "@ + text::decimal(
            summary.sapling_spending as nat,
        ) + " (standalone imported: "@ + text::decimal(summary.sapling_standalone as nat) + ")"@,
{
    let lines = summary.report_lines();
    assert(lines.len() >= 13 + 28);
    assert forall|i: int| 0 <= i < 13 implies (#[trigger] r@[i])@ == summary.imported_lines()[i] by {
        assert(text::texts(r@)[i] == r@[i]@);
        assert(lines[i] == summary.imported_lines()[i]);
    }
}

/// The report has a line for everything that it speaks of, and no other: each count that is not zero
/// has one, and so has each record that was not interpreted, and a part of the report has its title
/// exactly if it has anything under it.
#[verifier::rlimit(40)]
pub proof fn report_has_a_line_for_everything(summary: MigrationSummary, r: Vec<String>)
    requires
        call_ensures(MigrationSummary::report, (&summary,), r),
    ensures
        r@.len() == 13 + 28
            + ((if summary.skipped_uncompressed_pubkeys > 0 { 1int } else { 0int })
            + (if summary.skipped_p2pkh_address_only > 0 { 1int } else { 0int })
            + (if summary.skipped_p2sh_address_only > 0 { 1int } else { 0int })
            + (if summary.skipped_nonstandard > 0 { 1int } else { 0int })
            + (if summary.skipped_unsupported_scripts > 0 { 1int } else { 0int }))
            + (if summary.skipped_uncompressed_pubkeys > 0 || summary.skipped_p2pkh_address_only > 0
            || summary.skipped_p2sh_address_only > 0 || summary.skipped_nonstandard > 0
            || summary.skipped_unsupported_scripts > 0 { 2int } else { 0int })
            + ((if summary.err_malformed_pubkeys > 0 { 1int } else { 0int })
            + (if summary.err_unparseable_scripts > 0 { 1int } else { 0int }))
            + (if summary.err_malformed_pubkeys > 0 || summary.err_unparseable_scripts > 0 {
                2int
            } else {
                0int
            }) + (if summary.unified_address_meta_dropped > 0 { 4int } else { 0int })
            + summary.unparsed_records@.len()
            + (if exists|i: int|
                0 <= i < summary.unparsed_records@.len() && !records::carries_spend_authority(
                    (#[trigger] summary.unparsed_records@[i]).0,
                ) { 2int } else { 0int })
            + (if summary.dropped_sprout_keys > 0 { 1int } else { 0int })
            + (if summary.dropped_wkey_keys > 0 { 1int } else { 0int })
            + (if summary.dropped_sprout_keys > 0 || summary.dropped_wkey_keys > 0 || exists|i: int|
                0 <= i < summary.unparsed_records@.len() && records::carries_spend_authority(
                    (#[trigger] summary.unparsed_records@[i]).0,
                ) { 11int } else { 0int }),
{
    let entries = summary.unparsed_records@;
    assert(text::texts(r@).len() == r@.len());
    records::labels_are_by_name();
    record_lines_add_up(entries);
    let other = |entry: (Seq<char>, usize)| records::spend_authority_label(entry.0) is None;
    if exists|i: int|
        0 <= i < entries.len() && !records::carries_spend_authority((#[trigger] entries[i]).0) {
        let i = choose|i: int|
            0 <= i < entries.len() && !records::carries_spend_authority((#[trigger] entries[i]).0);
        sequences::filter_keeps(entries, other, entries[i]);
        assert(other_record_lines(entries).len() > 0);
    } else {
        if other_record_lines(entries).len() > 0 {
            let kept = entries.filter(other);
            assert(kept.contains(kept[0]));
            sequences::filtered_passes(entries, other, kept[0]);
            let i = entries.index_of(kept[0]);
            assert(!records::carries_spend_authority(entries[i].0));
        }
    }
    assert(summary.drops_spend_authority() <==> summary.dropped_sprout_keys > 0
        || summary.dropped_wkey_keys > 0 || exists|i: int|
        0 <= i < entries.len() && records::carries_spend_authority((#[trigger] entries[i]).0)) by {
        if exists|i: int|
            0 <= i < entries.len() && records::carries_spend_authority((#[trigger] entries[i]).0) {
            let i = choose|i: int|
                0 <= i < entries.len() && records::carries_spend_authority(
                    (#[trigger] entries[i]).0,
                );
            assert(records::spend_authority_label(summary.unparsed_records@[i].0) is Some);
        }
        if exists|i: int|
            0 <= i < entries.len() && records::spend_authority_label(
                #[trigger] entries[i].0,
            ) is Some {
            let i = choose|i: int|
                0 <= i < entries.len() && records::spend_authority_label(
                    #[trigger] entries[i].0,
                ) is Some;
            assert(records::carries_spend_authority(entries[i].0));
        }
    }
    if !summary.drops_spend_authority() {
        if spend_authority_lines(entries).len() > 0 {
            let holds = |entry: (Seq<char>, usize)|
                records::spend_authority_label(entry.0) is Some;
            let kept = entries.filter(holds);
            assert(kept.contains(kept[0]));
            sequences::filtered_passes(entries, holds, kept[0]);
            let i = entries.index_of(kept[0]);
            assert(records::spend_authority_label(summary.unparsed_records@[i].0) is Some);
        }
    }
}

proof fn record_lines_add_up(entries: Seq<(Seq<char>, usize)>)
    ensures
        other_record_lines(entries).len() + spend_authority_lines(entries).len() == entries.len(),
    decreases entries.len(),
{
    reveal_with_fuel(Seq::filter, 2);
    if entries.len() > 0 {
        let n = entries.len() - 1;
        record_lines_add_up(entries.take(n));
        other_record_lines_step(entries, n);
        spend_authority_lines_step(entries, n);
        assert(entries.take(n + 1) =~= entries);
    }
}

proof fn skipped_counts_are_shown(summary: MigrationSummary)
    ensures
        summary.skipped_uncompressed_pubkeys > 0 ==> summary.skipped_lines().contains(
            "  uncompressed watch-only pubkeys .. "@ + text::decimal(
                summary.skipped_uncompressed_pubkeys as nat,
            ),
        ),
        summary.skipped_p2pkh_address_only > 0 ==> summary.skipped_lines().contains(
            "  P2PKH address-only watch entries . "@ + text::decimal(
                summary.skipped_p2pkh_address_only as nat,
            ),
        ),
        summary.skipped_p2sh_address_only > 0 ==> summary.skipped_lines().contains(
            "  P2SH address-only watch entries .. "@ + text::decimal(
                summary.skipped_p2sh_address_only as nat,
            ),
        ),
        summary.skipped_nonstandard > 0 ==> summary.skipped_lines().contains(
            "  non-standard watch scripts ....... "@ + text::decimal(
                summary.skipped_nonstandard as nat,
            ),
        ),
        summary.skipped_unsupported_scripts > 0 ==> summary.skipped_lines().contains(
            "  unsupported redeem scripts ....... "@ + text::decimal(
                summary.skipped_unsupported_scripts as nat,
            ),
        ),
{
    let lines = summary.skipped_lines();
    let n0: int = count_line("  uncompressed watch-only pubkeys .. "@, summary.skipped_uncompressed_pubkeys).len() as int;
    let n1: int = count_line("  P2PKH address-only watch entries . "@, summary.skipped_p2pkh_address_only).len() as int;
    let n2: int = count_line("  P2SH address-only watch entries .. "@, summary.skipped_p2sh_address_only).len() as int;
    let n3: int = count_line("  non-standard watch scripts ....... "@, summary.skipped_nonstandard).len() as int;
    let n4: int = count_line("  unsupported redeem scripts ....... "@, summary.skipped_unsupported_scripts).len() as int;
    if summary.skipped_uncompressed_pubkeys > 0 {
        assert(lines[2] == "  uncompressed watch-only pubkeys .. "@ + text::decimal(summary.skipped_uncompressed_pubkeys as nat));
    }
    if summary.skipped_p2pkh_address_only > 0 {
        assert(lines[2 + n0] == "  P2PKH address-only watch entries . "@ + text::decimal(summary.skipped_p2pkh_address_only as nat));
    }
    if summary.skipped_p2sh_address_only > 0 {
        assert(lines[2 + n0 + n1] == "  P2SH address-only watch entries .. "@ + text::decimal(summary.skipped_p2sh_address_only as nat));
    }
    if summary.skipped_nonstandard > 0 {
        assert(lines[2 + n0 + n1 + n2] == "  non-standard watch scripts ....... "@ + text::decimal(summary.skipped_nonstandard as nat));
    }
    if summary.skipped_unsupported_scripts > 0 {
        assert(lines[2 + n0 + n1 + n2 + n3] == "  unsupported redeem scripts ....... "@ + text::decimal(summary.skipped_unsupported_scripts as nat));
    }
}

proof fn error_counts_are_shown(summary: MigrationSummary)
    ensures
        summary.err_malformed_pubkeys > 0 ==> summary.error_lines().contains(
            "  malformed watch-only pubkeys ..... "@ + text::decimal(
                summary.err_malformed_pubkeys as nat,
            ),
        ),
        summary.err_unparseable_scripts > 0 ==> summary.error_lines().contains(
            "  unparseable redeem scripts ....... "@ + text::decimal(
                summary.err_unparseable_scripts as nat,
            ),
        ),
{
    let lines = summary.error_lines();
    let n0: int = count_line("  malformed watch-only pubkeys ..... "@, summary.err_malformed_pubkeys).len() as int;
    let n1: int = count_line("  unparseable redeem scripts ....... "@, summary.err_unparseable_scripts).len() as int;
    if summary.err_malformed_pubkeys > 0 {
        assert(lines[2] == "  malformed watch-only pubkeys ..... "@ + text::decimal(summary.err_malformed_pubkeys as nat));
    }
    if summary.err_unparseable_scripts > 0 {
        assert(lines[2 + n0] == "  unparseable redeem scripts ....... "@ + text::decimal(summary.err_unparseable_scripts as nat));
    }
}

proof fn lost_keys_are_shown(summary: MigrationSummary)
    ensures
        summary.dropped_sprout_keys > 0 ==> summary.warning_lines().contains(
            "  Sprout spending keys ............. "@ + text::decimal(
                summary.dropped_sprout_keys as nat,
            ) + " (Zallet does not support Sprout)"@,
        ),
        summary.dropped_wkey_keys > 0 ==> summary.warning_lines().contains(
            "  legacy `wkey` transparent keys ... "@ + text::decimal(
                summary.dropped_wkey_keys as nat,
            ),
        ),
        summary.drops_spend_authority() ==> summary.warning_lines().contains(
            "WARNING: SPEND AUTHORITY WAS NOT MIGRATED"@,
        ),
{
    let lines = summary.warning_lines();
    if summary.drops_spend_authority() {
        assert(lines[2] == "WARNING: SPEND AUTHORITY WAS NOT MIGRATED"@);
    }
    if summary.dropped_sprout_keys > 0 {
        assert(lines[7] == summary.sprout_lines()[0]);
    }
    if summary.dropped_wkey_keys > 0 {
        let i = 7 + summary.sprout_lines().len();
        assert(lines[i as int] == "  legacy `wkey` transparent keys ... "@ + text::decimal(
            summary.dropped_wkey_keys as nat,
        ));
    }
}

proof fn parts_are_in_the_report(summary: MigrationSummary, line: Seq<char>)
    requires
        summary.skipped_lines().contains(line) || summary.error_lines().contains(line)
            || summary.address_note_lines().contains(line) || summary.warning_lines().contains(
            line,
        ),
    ensures
        summary.report_lines().contains(line),
{
    let lines = summary.report_lines();
    let a = summary.imported_lines();
    let b = summary.skipped_lines();
    let c = summary.error_lines();
    let d = summary.other_lines();
    let e = summary.address_note_lines();
    let w = summary.warning_lines();
    if b.contains(line) {
        assert(lines[a.len() + b.index_of(line)] == line);
    } else if c.contains(line) {
        assert(lines[a.len() + b.len() + c.index_of(line)] == line);
    } else if e.contains(line) {
        assert(lines[a.len() + b.len() + c.len() + d.len() + e.index_of(line)] == line);
    } else {
        assert(lines[a.len() + b.len() + c.len() + d.len() + e.len() + w.index_of(line)] == line);
    }
}

/// Each count of something that was left out stands in the report, with what it counts, if it is not
/// zero.
#[verifier::rlimit(40)]
pub proof fn report_shows_what_was_left_out(summary: MigrationSummary, r: Vec<String>)
    requires
        call_ensures(MigrationSummary::report, (&summary,), r),
    ensures
        summary.skipped_uncompressed_pubkeys > 0 ==> text::texts(r@).contains(
            "  uncompressed watch-only pubkeys .. "@ + text::decimal(
                summary.skipped_uncompressed_pubkeys as nat,
            ),
        ),
        summary.skipped_p2pkh_address_only > 0 ==> text::texts(r@).contains(
            "  P2PKH address-only watch entries . "@ + text::decimal(
                summary.skipped_p2pkh_address_only as nat,
            ),
        ),
        summary.skipped_p2sh_address_only > 0 ==> text::texts(r@).contains(
            "  P2SH address-only watch entries .. "@ + text::decimal(
                summary.skipped_p2sh_address_only as nat,
            ),
        ),
        summary.skipped_nonstandard > 0 ==> text::texts(r@).contains(
            "  non-standard watch scripts ....... "@ + text::decimal(
                summary.skipped_nonstandard as nat,
            ),
        ),
        summary.skipped_unsupported_scripts > 0 ==> text::texts(r@).contains(
            "  unsupported redeem scripts ....... "@ + text::decimal(
                summary.skipped_unsupported_scripts as nat,
            ),
        ),
        summary.err_malformed_pubkeys > 0 ==> text::texts(r@).contains(
            "  malformed watch-only pubkeys ..... "@ + text::decimal(
                summary.err_malformed_pubkeys as nat,
            ),
        ),
        summary.err_unparseable_scripts > 0 ==> text::texts(r@).contains(
            "  unparseable redeem scripts ....... "@ + text::decimal(
                summary.err_unparseable_scripts as nat,
            ),
        ),
        summary.dropped_wkey_keys > 0 ==> text::texts(r@).contains(
            "  legacy `wkey` transparent keys ... "@ + text::decimal(
                summary.dropped_wkey_keys as nat,
            ),
        ),
        summary.dropped_sprout_keys > 0 ==> text::texts(r@).contains(
            "  Sprout spending keys ............. "@ + text::decimal(
                summary.dropped_sprout_keys as nat,
            ) + " (Zallet does not support Sprout)"@,
        ),
        summary.unified_address_meta_dropped > 0 ==> text::texts(r@).contains(
            "Note: "@ + text::decimal(summary.unified_address_meta_dropped as nat)
                + " previously-issued unified address(es) recorded by zcashd were"@,
        ),
        (summary.dropped_sprout_keys > 0 || summary.dropped_wkey_keys > 0) ==> text::texts(
            r@,
        ).contains("WARNING: SPEND AUTHORITY WAS NOT MIGRATED"@),
{
    skipped_counts_are_shown(summary);
    error_counts_are_shown(summary);
    lost_keys_are_shown(summary);
    if summary.skipped_uncompressed_pubkeys > 0 {
        parts_are_in_the_report(
            summary,
            "  uncompressed watch-only pubkeys .. "@ + text::decimal(
                summary.skipped_uncompressed_pubkeys as nat,
            ),
        );
    }
    if summary.skipped_p2pkh_address_only > 0 {
        parts_are_in_the_report(
            summary,
            "  P2PKH address-only watch entries . "@ + text::decimal(
                summary.skipped_p2pkh_address_only as nat,
            ),
        );
    }
    if summary.skipped_p2sh_address_only > 0 {
        parts_are_in_the_report(
            summary,
            "  P2SH address-only watch entries .. "@ + text::decimal(
                summary.skipped_p2sh_address_only as nat,
            ),
        );
    }
    if summary.skipped_nonstandard > 0 {
        parts_are_in_the_report(
            summary,
            "  non-standard watch scripts ....... "@ + text::decimal(
                summary.skipped_nonstandard as nat,
            ),
        );
    }
    if summary.skipped_unsupported_scripts > 0 {
        parts_are_in_the_report(
            summary,
            "  unsupported redeem scripts ....... "@ + text::decimal(
                summary.skipped_unsupported_scripts as nat,
            ),
        );
    }
    if summary.err_malformed_pubkeys > 0 {
        parts_are_in_the_report(
            summary,
            "  malformed watch-only pubkeys ..... "@ + text::decimal(
                summary.err_malformed_pubkeys as nat,
            ),
        );
    }
    if summary.err_unparseable_scripts > 0 {
        parts_are_in_the_report(
            summary,
            "  unparseable redeem scripts ....... "@ + text::decimal(
                summary.err_unparseable_scripts as nat,
            ),
        );
    }
    if summary.dropped_wkey_keys > 0 {
        parts_are_in_the_report(
            summary,
            "  legacy `wkey` transparent keys ... "@ + text::decimal(
                summary.dropped_wkey_keys as nat,
            ),
        );
    }
    if summary.dropped_sprout_keys > 0 {
        parts_are_in_the_report(
            summary,
            "  Sprout spending keys ............. "@ + text::decimal(
                summary.dropped_sprout_keys as nat,
            ) + " (Zallet does not support Sprout)"@,
        );
    }
    if summary.unified_address_meta_dropped > 0 {
        let line = "Note: "@ + text::decimal(summary.unified_address_meta_dropped as nat)
            + " previously-issued unified address(es) recorded by zcashd were"@;
        assert(summary.address_note_lines()[1] == line);
        parts_are_in_the_report(summary, line);
    }
    if summary.dropped_sprout_keys > 0 || summary.dropped_wkey_keys > 0 {
        parts_are_in_the_report(summary, "WARNING: SPEND AUTHORITY WAS NOT MIGRATED"@);
    }
}

/// Every record type that was not interpreted stands in the report with its number: under its own
/// name if it is not key material, and as what it holds, with the warning, if it is.
#[verifier::rlimit(40)]
pub proof fn report_tells_of_each_record(summary: MigrationSummary, r: Vec<String>, i: int)
    requires
        call_ensures(MigrationSummary::report, (&summary,), r),
        0 <= i < summary.unparsed_records@.len(),
    ensures
        !records::carries_spend_authority(summary.unparsed_records@[i].0) ==> text::texts(
            r@,
        ).contains(
            "  "@ + summary.unparsed_records@[i].0 + " ....... "@ + text::decimal(
                summary.unparsed_records@[i].1 as nat,
            ),
        ),
        summary.unparsed_records@[i].0 == "ckey"@ ==> text::texts(r@).contains(
            "  "@ + "encrypted transparent spending keys (ckey)"@ + " ... "@ + text::decimal(
                summary.unparsed_records@[i].1 as nat,
            ),
        ),
        summary.unparsed_records@[i].0 == "csapzkey"@ ==> text::texts(r@).contains(
            "  "@ + "encrypted Sapling spending keys (csapzkey)"@ + " ... "@ + text::decimal(
                summary.unparsed_records@[i].1 as nat,
            ),
        ),
        summary.unparsed_records@[i].0 == "czkey"@ ==> text::texts(r@).contains(
            "  "@ + "encrypted Sprout spending keys (czkey)"@ + " ... "@ + text::decimal(
                summary.unparsed_records@[i].1 as nat,
            ),
        ),
        summary.unparsed_records@[i].0 == "chdseed"@ ==> text::texts(r@).contains(
            "  "@ + "encrypted legacy HD seed (chdseed)"@ + " ... "@ + text::decimal(
                summary.unparsed_records@[i].1 as nat,
            ),
        ),
        summary.unparsed_records@[i].0 == "cmnemonicphrase"@ ==> text::texts(r@).contains(
            "  "@ + "encrypted mnemonic phrase (cmnemonicphrase)"@ + " ... "@ + text::decimal(
                summary.unparsed_records@[i].1 as nat,
            ),
        ),
        summary.unparsed_records@[i].0 == "mkey"@ ==> text::texts(r@).contains(
            "  "@ + "wallet master encryption key (mkey)"@ + " ... "@ + text::decimal(
                summary.unparsed_records@[i].1 as nat,
            ),
        ),
        records::carries_spend_authority(summary.unparsed_records@[i].0) ==> text::texts(
            r@,
        ).contains("WARNING: SPEND AUTHORITY WAS NOT MIGRATED"@),
{
    reveal_strlit("ckey");
    reveal_strlit("csapzkey");
    reveal_strlit("czkey");
    reveal_strlit("chdseed");
    reveal_strlit("cmnemonicphrase");
    reveal_strlit("mkey");
    assert("ckey"@[1] == 'k' && "csapzkey"@[1] == 's' && "czkey"@[1] == 'z');
    assert("chdseed"@[1] == 'h' && "cmnemonicphrase"@[1] == 'm' && "mkey"@[0] == 'm');
    records::labels_are_by_name();
    every_record_is_reported(summary, i);
    report_warns_exactly_of_lost_spend_authority(summary);
}

/// The parts of the report that have anything under them have their titles.
pub proof fn parts_of_the_report_have_titles(summary: MigrationSummary, r: Vec<String>)
    requires
        call_ensures(MigrationSummary::report, (&summary,), r),
    ensures
        (summary.skipped_uncompressed_pubkeys > 0 || summary.skipped_p2pkh_address_only > 0
            || summary.skipped_p2sh_address_only > 0 || summary.skipped_nonstandard > 0
            || summary.skipped_unsupported_scripts > 0) ==> text::texts(r@).contains(
            "Skipped (recognized but not migratable yet):"@,
        ),
        (summary.err_malformed_pubkeys > 0 || summary.err_unparseable_scripts > 0) ==> text::texts(
            r@,
        ).contains("Errors (malformed / unparseable, not migrated):"@),
        text::texts(r@).contains("1. Your ORIGINAL zcashd wallet.dat:"@),
        text::texts(r@).contains("2. Your NEW Zallet wallet:"@),
{
    let lines = summary.report_lines();
    let n = lines.len() - backup_lines().len();
    assert(lines[n + 4] == backup_lines()[4]);
    assert(lines[n + 12] == backup_lines()[12]);
    if summary.skipped_lines().len() > 0 {
        assert(summary.skipped_lines()[1] == "Skipped (recognized but not migratable yet):"@);
        parts_are_in_the_report(summary, "Skipped (recognized but not migratable yet):"@);
    }
    if summary.error_lines().len() > 0 {
        assert(summary.error_lines()[1] == "Errors (malformed / unparseable, not migrated):"@);
        parts_are_in_the_report(summary, "Errors (malformed / unparseable, not migrated):"@);
    }
}

/// Spend authority was lost exactly if there were Sprout keys or `wkey` keys, or a record that
/// carries some.
pub proof fn lost_spend_authority_is_told(summary: MigrationSummary, r: bool)
    requires
        call_ensures(MigrationSummary::any_dropped_spend_authority, (&summary,), r),
    ensures
        r <==> summary.dropped_sprout_keys > 0 || summary.dropped_wkey_keys > 0 || exists|i: int|
            0 <= i < summary.unparsed_records@.len() && records::carries_spend_authority(
                (#[trigger] summary.unparsed_records@[i]).0,
            ),
{
    records::labels_are_by_name();
    let entries = summary.unparsed_records@;
    if exists|i: int|
        0 <= i < entries.len() && records::carries_spend_authority((#[trigger] entries[i]).0) {
        let i = choose|i: int|
            0 <= i < entries.len() && records::carries_spend_authority((#[trigger] entries[i]).0);
        assert(records::spend_authority_label(summary.unparsed_records@[i].0) is Some);
    }
    if exists|i: int|
        0 <= i < entries.len() && records::spend_authority_label(#[trigger] entries[i].0) is Some {
        let i = choose|i: int|
            0 <= i < entries.len() && records::spend_authority_label(
                #[trigger] entries[i].0,
            ) is Some;
        assert(records::carries_spend_authority(entries[i].0));
    }
}

} // verus!
