//! The commands around the migration: what they refuse at the outset, and what they warn of.

use crate::error;
use crate::error::{CommandError, CommandErrorModel, Message};
use crate::fingerprint;
use crate::fingerprint::SeedFingerprint;
use crate::text;
use crate::text::push_text;
use vstd::prelude::*;

verus! {

/// Whether the chain is to be monitored during a migration.
#[derive(Clone, Copy, Debug, PartialEq, Eq, Structural)]
pub enum ChainUse {
    Monitored,
    Unused,
}

/// Begins the command that migrates a wallet. The operator has to acknowledge that the migration is
/// unfinished and will have to be redone. The chain is monitored unless it is not to be scanned.
pub fn begin_migration(acknowledged: bool, no_scan: bool) -> (r: Result<ChainUse, CommandError>)
    ensures
        match r {
            Ok(chain) => acknowledged && chain == if no_scan {
                ChainUse::Unused
            } else {
                ChainUse::Monitored
            },
            Err(e) => !acknowledged && e@ == CommandErrorModel::Message(
                error::plain("migrate-alpha-code"@),
            ),
        },
{
    if !acknowledged {
        return Err(CommandError::Message(Message::plain("migrate-alpha-code")));
    }
    if no_scan {
        Ok(ChainUse::Unused)
    } else {
        Ok(ChainUse::Monitored)
    }
}

/// The message that tells the operator the fingerprint of the seed of the legacy account.
pub fn seed_announcement(seed_fingerprint: &SeedFingerprint) -> (r: Message)
    ensures
        r@ == error::with_text(
            "migrate-wallet-legacy-seed-fp"@,
            "seed_fp"@,
            fingerprint::fingerprint_text(seed_fingerprint@),
        ),
{
    Message::with_text("migrate-wallet-legacy-seed-fp", "seed_fp", seed_fingerprint.to_text())
}

/// What is known of the account whose mnemonic is to be exported.
#[derive(Clone, Copy, Debug)]
pub enum ExportAccount {
    /// There is no such account.
    Missing,
    /// The account is not derived from a seed.
    Underived,
    /// The account is derived from the seed with the given fingerprint.
    Derived(SeedFingerprint),
}

/// The seed whose mnemonic is to be exported for an account.
pub fn export_seed(account: ExportAccount) -> (r: Result<SeedFingerprint, CommandError>)
    ensures
        match account {
            ExportAccount::Missing => r matches Err(e) && e@ == CommandErrorModel::Message(
                error::plain("err-account-not-found"@),
            ),
            ExportAccount::Underived => r matches Err(e) && e@ == CommandErrorModel::Message(
                error::plain("err-account-no-payment-source"@),
            ),
            ExportAccount::Derived(seed_fingerprint) => r matches Ok(seed) && seed
                == seed_fingerprint,
        },
{
    match account {
        ExportAccount::Missing => Err(
            CommandError::Message(Message::plain("err-account-not-found")),
        ),
        ExportAccount::Underived => Err(
            CommandError::Message(Message::plain("err-account-no-payment-source")),
        ),
        ExportAccount::Derived(seed_fingerprint) => Ok(seed_fingerprint),
    }
}

/// The warning that an exported mnemonic is not a complete backup.
pub open spec fn incomplete_backup_lines() -> Seq<Seq<char>> {
    seq![
        ""@,
        "WARNING: this mnemonic is NOT a complete backup of your wallet."@,
        "This wallet also holds spending keys that CANNOT be recovered from any"@,
        "mnemonic (imported Sapling keys, migrated transparent keys, and/or legacy"@,
        "seeds). To back those up you must ALSO keep a secure copy of BOTH:"@,
        "  - your Zallet wallet database (wallet.db in your datadir), and"@,
        "  - the age encryption identity file (the file named by the"@,
        "    keystore.encryption_identity config option); wallet.db is encrypted"@,
        "    to it and cannot be decrypted without it."@,
        "There is currently no backup RPC or command for this key material."@,
    ]
}

/// The warning that follows the export of a mnemonic. A mnemonic backs up only the funds that are
/// derived from its seed; legacy seeds and standalone keys are not.
pub fn export_warning(legacy_seeds: usize, has_standalone_keys: bool) -> (r: Vec<String>)
    ensures
        text::texts(r@) == if legacy_seeds > 0 || has_standalone_keys {
            incomplete_backup_lines()
        } else {
            Seq::empty()
        },
{
    let mut lines: Vec<String> = Vec::new();
    if legacy_seeds > 0 || has_standalone_keys {
        push_text(&mut lines, "");
        push_text(&mut lines, "WARNING: this mnemonic is NOT a complete backup of your wallet.");
        push_text(
            &mut lines,
            "This wallet also holds spending keys that CANNOT be recovered from any",
        );
        push_text(
            &mut lines,
            "mnemonic (imported Sapling keys, migrated transparent keys, and/or legacy",
        );
        push_text(
            &mut lines,
            "seeds). To back those up you must ALSO keep a secure copy of BOTH:",
        );
        push_text(&mut lines, "  - your Zallet wallet database (wallet.db in your datadir), and");
        push_text(&mut lines, "  - the age encryption identity file (the file named by the");
        push_text(
            &mut lines,
            "    keystore.encryption_identity config option); wallet.db is encrypted",
        );
        push_text(&mut lines, "    to it and cannot be decrypted without it.");
        push_text(
            &mut lines,
            "There is currently no backup RPC or command for this key material.",
        );
    }
    proof {
        assert(text::texts(lines@) =~= if legacy_seeds > 0 || has_standalone_keys {
            incomplete_backup_lines()
        } else {
            Seq::empty()
        });
    }
    lines
}

} // verus!
