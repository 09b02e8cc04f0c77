//! The steps of a migration: what it asks for at each stage, and how it goes on from there.

use crate::accounts;
use crate::accounts::{
    check_account_id, check_import, zcashd_seed_fingerprints, AccountLabel, AccountSource,
    AccountUuid, ZCASHD_LEGACY_ACCOUNT, ZCASHD_LEGACY_SOURCE, ZCASHD_MNEMONIC_SOURCE,
};
use crate::action::{AccountPurpose, Action, Event, Stage};
use crate::consensus::NetworkUpgrades;
use crate::error;
use crate::error::{Message, MigrateError};
use crate::exposure;
use crate::exposure::{exposure_marks, AddressSet};
use crate::fingerprint::SeedFingerprint;
use crate::migration;
use crate::migration::{Migration, MigrationOptions, Plan, Progress};
use crate::mnemonic;
use crate::mnemonic::{derive_mnemonic, parse_mnemonic};
use crate::network;
use crate::network::{check_network, NetworkType};
use crate::records;
use crate::records::tally_records;
use crate::sapling;
use crate::sapling::{
    account_lookup, sapling_account, standalone, unified_viewing_key, AccountLookup, Derivation,
    SaplingKey,
};
use crate::summary::MigrationSummary;
use crate::text;
use crate::text::decimal_text;
use crate::transactions;
use crate::transactions::{
    chain_birthday, decode_transactions, lookup_needed, no_scan_birthday, output_addresses,
    transaction_heights, usable_tip,
};
use crate::transparent;
use crate::transparent::{redeem_address, PublicKey, TransparentAddress};
use crate::transparent_keys;
use crate::transparent_keys::{can_convert, convert_key};
use crate::wallet::Wallet;
use crate::watchonly;
use crate::watchonly::{collect_redeem_scripts, collect_watch_scripts};
use vstd::prelude::*;

verus! {

impl Migration {
    /// The height of the birthday that is asked for.
    pub open spec fn birthday_sought(&self) -> u32 {
        let sapling_activation = self.plan.upgrades.sapling.unwrap();
        if self.plan.options.no_scan {
            transactions::birthday_off_chain(self.plan.wallet.transactions@, sapling_activation)
        } else {
            transactions::birthday_on_chain(
                self.progress.heights@,
                self.progress.tip,
                sapling_activation,
            )
        }
    }

    /// Where the unified account at `idx` comes from.
    pub open spec fn unified_derivation(&self, idx: usize) -> Derivation {
        Derivation {
            seed_fingerprint: self.progress.mnemonic_fp.unwrap(),
            account_index: self.plan.wallet.unified_accounts@[idx as int].zip32_account_id,
            legacy_address_index: None,
        }
    }

    /// What the migration asks to be done.
    pub open spec fn pending(&self) -> Action<'_> {
        let wallet = &self.plan.wallet;
        let p = &self.progress;
        match p.stage {
            Stage::Accounts => Action::ReadAccountSources,
            Stage::StoreMnemonic => match p.mnemonic {
                Some(mnemonic) => Action::StoreMnemonic { mnemonic: &mnemonic },
                None => Action::Proceed,
            },
            Stage::ChainTip => if self.plan.options.no_scan {
                Action::Proceed
            } else {
                Action::ReadTip
            },
            Stage::Block { tx } => if tx < wallet.transactions@.len()
                && transactions::needs_lookup(
                p.block_index@,
                wallet.transactions@[tx as int],
            ) {
                Action::FindBlock { hash: wallet.transactions@[tx as int].hash_block }
            } else {
                Action::Proceed
            },
            // The tree state is that of the last block before the birthday.
            Stage::Birthday => if self.plan.options.no_scan {
                Action::UseEmptyTreeState { height: self.birthday_sought() }
            } else {
                Action::ReadTreeState {
                    height: transactions::height_less(self.birthday_sought(), 1),
                    recover_until: p.tip,
                }
            },
            Stage::LegacyAccount => if p.mnemonic is Some && self.plan.wants_legacy_account() {
                Action::ImportHdAccount {
                    label: AccountLabel::LegacyTransparent,
                    mnemonic: &p.mnemonic.unwrap(),
                    account_id: ZCASHD_LEGACY_ACCOUNT,
                    key_source: ZCASHD_MNEMONIC_SOURCE,
                }
            } else {
                Action::Proceed
            },
            Stage::Announce => Action::AnnounceSeed { seed_fingerprint: p.mnemonic_fp.unwrap() },
            Stage::LegacySeed => match wallet.legacy_seed {
                Some(seed) => Action::StoreLegacySeed { seed: &seed },
                None => Action::Proceed,
            },
            Stage::DerivedMnemonic => Action::StoreMnemonic { mnemonic: &p.derived.unwrap() },
            Stage::DerivedAccount => Action::ImportHdAccount {
                label: AccountLabel::LegacyTransparent,
                mnemonic: &p.derived.unwrap(),
                account_id: ZCASHD_LEGACY_ACCOUNT,
                key_source: ZCASHD_MNEMONIC_SOURCE,
            },
            Stage::UnifiedLookup { idx } => Action::FindAccount {
                lookup: AccountLookup::ByDerivation(self.unified_derivation(idx)),
            },
            Stage::UnifiedImport { idx } => Action::ImportHdAccount {
                label: AccountLabel::Unified(
                    wallet.unified_accounts@[idx as int].zip32_account_id,
                ),
                mnemonic: &p.mnemonic.unwrap(),
                account_id: wallet.unified_accounts@[idx as int].zip32_account_id,
                key_source: ZCASHD_MNEMONIC_SOURCE,
            },
            Stage::SaplingStandalone { idx } => if sapling::is_standalone(
                wallet.sapling_keys@[idx as int].seed_fp,
                p.mnemonic_fp,
                p.legacy_fp,
            ) {
                Action::StoreSaplingKey { extsk: &wallet.sapling_keys@[idx as int].extsk }
            } else {
                Action::Proceed
            },
            Stage::SaplingLookup { idx } => Action::FindAccount {
                lookup: sapling::lookup_of(
                    wallet.sapling_keys@[idx as int].seed_fp,
                    &p.sapling.unwrap(),
                ),
            },
            Stage::SaplingImport { idx } => Action::ImportViewingKey {
                label: AccountLabel::LegacySapling(idx),
                ufvk: &p.sapling.unwrap().ufvk,
                purpose: AccountPurpose::Spending { derivation: p.sapling.unwrap().derivation },
                key_source: ZCASHD_LEGACY_SOURCE,
            },
            Stage::ViewingLookup { idx } => Action::FindAccount {
                lookup: AccountLookup::ByViewingKey(&p.viewing.unwrap()),
            },
            Stage::ViewingImport { idx } => Action::ImportViewingKey {
                label: AccountLabel::ViewOnlySapling(idx),
                ufvk: &p.viewing.unwrap(),
                purpose: AccountPurpose::ViewOnly,
                key_source: ZCASHD_LEGACY_SOURCE,
            },
            Stage::Encryptor => Action::OpenEncryptor,
            Stage::KeyEncrypt { idx } => Action::EncryptKey { key: p.key.unwrap() },
            Stage::StoreKeys => Action::StoreEncryptedKeys,
            Stage::ImportKeys => Action::ImportPubkeys {
                account: p.legacy_account.unwrap(),
                pubkeys: &p.pubkeys,
            },
            Stage::ImportWatched => Action::ImportPubkeys {
                account: p.legacy_account.unwrap(),
                pubkeys: &self.plan.watch.pubkeys,
            },
            Stage::Script { idx } => if idx < self.plan.scripts.parsed@.len() {
                Action::ImportScript {
                    account: p.legacy_account.unwrap(),
                    script: &self.plan.scripts.parsed@[idx as int],
                }
            } else {
                Action::Proceed
            },
            Stage::Receivers => if p.to_expose@ == Set::<TransparentAddress>::empty() {
                Action::Proceed
            } else {
                Action::ReadReceivers
            },
            Stage::Mark => if p.marks@.len() > 0 {
                Action::MarkExposed { marks: &p.marks }
            } else {
                Action::Proceed
            },
            Stage::Buffer => if self.plan.options.buffer_wallet_transactions {
                Action::ReadScanContext
            } else {
                Action::Proceed
            },
            Stage::StoreTransactions => Action::StoreTransactions { transactions: &p.decoded },
            Stage::Finished => Action::Finish,
            _ => Action::Proceed,
        }
    }

    /// What the migration asks to be done.
    pub fn action(&self) -> (r: Action<'_>)
        requires
            self.wf(),
        ensures
            r == self.pending(),
    {
        let wallet = &self.plan.wallet;
        let p = &self.progress;
        match p.stage {
            Stage::Accounts => Action::ReadAccountSources,
            Stage::StoreMnemonic => match &p.mnemonic {
                Some(mnemonic) => Action::StoreMnemonic { mnemonic },
                None => Action::Proceed,
            },
            Stage::ChainTip => {
                if self.plan.options.no_scan {
                    Action::Proceed
                } else {
                    Action::ReadTip
                }
            },
            Stage::Block { tx } => {
                if tx < wallet.transactions.len() && lookup_needed(
                    &p.block_index,
                    &wallet.transactions[tx],
                ) {
                    Action::FindBlock { hash: wallet.transactions[tx].hash_block }
                } else {
                    Action::Proceed
                }
            },
            Stage::Birthday => {
                let sapling_activation: u32 = self.plan.upgrades.sapling.unwrap();
                if self.plan.options.no_scan {
                    Action::UseEmptyTreeState {
                        height: no_scan_birthday(&wallet.transactions, sapling_activation),
                    }
                } else {
                    let birthday: u32 = chain_birthday(&p.heights, p.tip, sapling_activation);
                    Action::ReadTreeState {
                        height: if birthday >= 1 {
                            birthday - 1
                        } else {
                            0
                        },
                        recover_until: p.tip,
                    }
                }
            },
            Stage::LegacyAccount => match &p.mnemonic {
                Some(mnemonic) => {
                    if self.plan.legacy_account_wanted() {
                        Action::ImportHdAccount {
                            label: AccountLabel::LegacyTransparent,
                            mnemonic,
                            account_id: ZCASHD_LEGACY_ACCOUNT,
                            key_source: ZCASHD_MNEMONIC_SOURCE,
                        }
                    } else {
                        Action::Proceed
                    }
                },
                None => Action::Proceed,
            },
            Stage::Announce => Action::AnnounceSeed { seed_fingerprint: p.mnemonic_fp.unwrap() },
            Stage::LegacySeed => match &wallet.legacy_seed {
                Some(seed) => Action::StoreLegacySeed { seed },
                None => Action::Proceed,
            },
            Stage::DerivedMnemonic => Action::StoreMnemonic {
                mnemonic: p.derived.as_ref().unwrap(),
            },
            Stage::DerivedAccount => Action::ImportHdAccount {
                label: AccountLabel::LegacyTransparent,
                mnemonic: p.derived.as_ref().unwrap(),
                account_id: ZCASHD_LEGACY_ACCOUNT,
                key_source: ZCASHD_MNEMONIC_SOURCE,
            },
            Stage::UnifiedLookup { idx } => Action::FindAccount {
                lookup: AccountLookup::ByDerivation(
                    Derivation {
                        seed_fingerprint: p.mnemonic_fp.unwrap(),
                        account_index: wallet.unified_accounts[idx].zip32_account_id,
                        legacy_address_index: None,
                    },
                ),
            },
            Stage::UnifiedImport { idx } => Action::ImportHdAccount {
                label: AccountLabel::Unified(wallet.unified_accounts[idx].zip32_account_id),
                mnemonic: p.mnemonic.as_ref().unwrap(),
                account_id: wallet.unified_accounts[idx].zip32_account_id,
                key_source: ZCASHD_MNEMONIC_SOURCE,
            },
            Stage::SaplingStandalone { idx } => {
                if standalone(&wallet.sapling_keys[idx].seed_fp, &p.mnemonic_fp, &p.legacy_fp) {
                    Action::StoreSaplingKey { extsk: &wallet.sapling_keys[idx].extsk }
                } else {
                    Action::Proceed
                }
            },
            Stage::SaplingLookup { idx } => Action::FindAccount {
                lookup: account_lookup(
                    &wallet.sapling_keys[idx].seed_fp,
                    p.sapling.as_ref().unwrap(),
                ),
            },
            Stage::SaplingImport { idx } => {
                let account = p.sapling.as_ref().unwrap();
                Action::ImportViewingKey {
                    label: AccountLabel::LegacySapling(idx),
                    ufvk: &account.ufvk,
                    purpose: AccountPurpose::Spending { derivation: account.derivation },
                    key_source: ZCASHD_LEGACY_SOURCE,
                }
            },
            Stage::ViewingLookup { idx } => Action::FindAccount {
                lookup: AccountLookup::ByViewingKey(p.viewing.as_ref().unwrap()),
            },
            Stage::ViewingImport { idx } => Action::ImportViewingKey {
                label: AccountLabel::ViewOnlySapling(idx),
                ufvk: p.viewing.as_ref().unwrap(),
                purpose: AccountPurpose::ViewOnly,
                key_source: ZCASHD_LEGACY_SOURCE,
            },
            Stage::Encryptor => Action::OpenEncryptor,
            Stage::KeyEncrypt { idx } => Action::EncryptKey { key: p.key.unwrap() },
            Stage::StoreKeys => Action::StoreEncryptedKeys,
            Stage::ImportKeys => Action::ImportPubkeys {
                account: p.legacy_account.unwrap(),
                pubkeys: &p.pubkeys,
            },
            Stage::ImportWatched => Action::ImportPubkeys {
                account: p.legacy_account.unwrap(),
                pubkeys: &self.plan.watch.pubkeys,
            },
            Stage::Script { idx } => {
                if idx < self.plan.scripts.parsed.len() {
                    Action::ImportScript {
                        account: p.legacy_account.unwrap(),
                        script: &self.plan.scripts.parsed[idx],
                    }
                } else {
                    Action::Proceed
                }
            },
            Stage::Receivers => {
                if p.to_expose.is_empty() {
                    Action::Proceed
                } else {
                    Action::ReadReceivers
                }
            },
            Stage::Mark => {
                if p.marks.len() > 0 {
                    Action::MarkExposed { marks: &p.marks }
                } else {
                    Action::Proceed
                }
            },
            Stage::Buffer => {
                if self.plan.options.buffer_wallet_transactions {
                    Action::ReadScanContext
                } else {
                    Action::Proceed
                }
            },
            Stage::StoreTransactions => Action::StoreTransactions { transactions: &p.decoded },
            Stage::Finished => Action::Finish,
            _ => Action::Proceed,
        }
    }
}

impl Migration {
    /// Whether `event` can be the outcome of what the migration asked for, and the migration can go
    /// on from it. It cannot where Sapling never activates, where a unified account does not come
    /// from the mnemonic of the wallet, and where the decoder has no answer for a private key.
    pub open spec fn awaits(&self, event: Event) -> bool {
        let wallet = self.plan.wallet;
        let p = self.progress;
        match self.pending() {
            Action::Proceed => event is Proceeded && match p.stage {
                Stage::ChainTip => self.plan.upgrades.sapling is Some,
                Stage::Unified { idx } => idx < wallet.unified_accounts@.len() ==> p.mnemonic_fp
                    == Some(wallet.unified_accounts@[idx as int].seed_fingerprint),
                Stage::Key { idx } => idx < wallet.keys@.len() ==> transparent_keys::is_convertible(
                    wallet.keys@[idx as int],
                ),
                _ => true,
            },
            Action::ReadAccountSources => event is AccountSources,
            Action::StoreMnemonic { .. } => event is MnemonicStored,
            Action::ReadTip => event is Tip && self.plan.upgrades.sapling is Some,
            Action::FindBlock { .. } => event is BlockFound,
            Action::ReadTreeState { .. } => event is TreeState,
            Action::ImportHdAccount { .. } => event is AccountImported,
            Action::StoreLegacySeed { .. } => event is LegacySeedStored,
            Action::FindAccount { .. } => event is AccountFound,
            Action::EncryptKey { .. } => event is KeyEncrypted,
            Action::ImportScript { .. } => event is ScriptImported,
            Action::ReadReceivers => event is Receivers,
            Action::Finish => false,
            _ => event is Proceeded,
        }
    }

    /// Whether `event` can be the outcome of what the migration asked for, and the migration can go
    /// on from it.
    pub fn accepts(&self, event: &Event) -> (r: bool)
        requires
            self.wf(),
        ensures
            r == self.awaits(*event),
    {
        let wallet = &self.plan.wallet;
        let p = &self.progress;
        match self.action() {
            Action::Proceed => matches!(event, Event::Proceeded) && match p.stage {
                Stage::ChainTip => self.plan.upgrades.sapling.is_some(),
                Stage::Unified { idx } => idx >= wallet.unified_accounts.len()
                    || match &p.mnemonic_fp {
                    Some(seed_fp) => seed_fp.same(&wallet.unified_accounts[idx].seed_fingerprint),
                    None => false,
                },
                Stage::Key { idx } => idx >= wallet.keys.len() || can_convert(&wallet.keys[idx]),
                _ => true,
            },
            Action::ReadAccountSources => matches!(event, Event::AccountSources(_)),
            Action::StoreMnemonic { .. } => matches!(event, Event::MnemonicStored(_)),
            Action::ReadTip => matches!(event, Event::Tip(_))
                && self.plan.upgrades.sapling.is_some(),
            Action::FindBlock { .. } => matches!(event, Event::BlockFound(_)),
            Action::ReadTreeState { .. } => matches!(event, Event::TreeState(_)),
            Action::ImportHdAccount { .. } => matches!(event, Event::AccountImported(_)),
            Action::StoreLegacySeed { .. } => matches!(event, Event::LegacySeedStored(_)),
            Action::FindAccount { .. } => matches!(event, Event::AccountFound(_)),
            Action::EncryptKey { .. } => matches!(event, Event::KeyEncrypted(_)),
            Action::ImportScript { .. } => matches!(event, Event::ScriptImported(_)),
            Action::ReadReceivers => matches!(event, Event::Receivers(_)),
            Action::Finish => false,
            _ => matches!(event, Event::Proceeded),
        }
    }

    /// The migration has moved on to `stage`, and nothing else has changed.
    pub open spec fn moved_to(pre: Migration, post: Migration, stage: Stage) -> bool {
        post == Migration { progress: Progress { stage, ..pre.progress }, ..pre }
    }

    /// The migration has failed, and nothing has changed.
    pub open spec fn failed(pre: Migration, r: Result<(), MigrateError>, post: Migration) -> bool {
        r is Err && post == pre
    }

    /// The accounts of the wallet database are known. The migration reads the mnemonic of the
    /// wallet, and fails if there is one that cannot be read.
    pub open spec fn accounts_step(
        pre: Migration,
        sources: Seq<AccountSource>,
        r: Result<(), MigrateError>,
        post: Migration,
    ) -> bool {
        let phrase = pre.plan.wallet.mnemonic@;
        let parsed = mnemonic::mnemonic_of(phrase);
        if phrase.len() > 0 && parsed is Err {
            &&& Self::failed(pre, r, post)
            &&& r->Err_0 == MigrateError::MnemonicInvalid(parsed->Err_0)
        } else {
            &&& r is Ok
            &&& post == Migration {
                progress: Progress {
                    stage: Stage::StoreMnemonic,
                    existing: post.progress.existing,
                    mnemonic: post.progress.mnemonic,
                    ..pre.progress
                },
                ..pre
            }
            &&& post.progress.existing@ == accounts::zcashd_fingerprints(sources)
            &&& match post.progress.mnemonic {
                Some(m) => phrase.len() > 0 && m@ == parsed->Ok_0,
                None => phrase.len() == 0,
            }
        }
    }

    /// The mnemonic is stored if there is one, `seed_fp` being the fingerprint of its seed. The
    /// migration fails if the wallet may not be imported besides those that were.
    pub open spec fn store_mnemonic_step(
        pre: Migration,
        seed_fp: Option<SeedFingerprint>,
        r: Result<(), MigrateError>,
        post: Migration,
    ) -> bool {
        &&& accounts::import_answer(
            pre.progress.existing@,
            pre.plan.options.allow_multiple_wallet_imports,
            migration::seed_of(pre.progress.mnemonic),
            r,
        )
        &&& if r is Ok {
            post == Migration {
                progress: Progress {
                    stage: Stage::ChainTip,
                    mnemonic_fp: seed_fp,
                    ..pre.progress
                },
                ..pre
            }
        } else {
            post == pre
        }
    }

    /// The height of the tip of the chain is known; without a chain there is none, and nothing
    /// counts as mined.
    pub open spec fn chain_tip_step(
        pre: Migration,
        tip: Option<u32>,
        r: Result<(), MigrateError>,
        post: Migration,
    ) -> bool {
        &&& r is Ok
        &&& match tip {
            Some(height) => post == Migration {
                progress: Progress {
                    stage: Stage::Block { tx: 0 },
                    tip: transactions::usable(height),
                    ..pre.progress
                },
                ..pre
            },
            None => {
                &&& post == Migration {
                    progress: Progress {
                        stage: Stage::Birthday,
                        heights: post.progress.heights,
                        ..pre.progress
                    },
                    ..pre
                }
                &&& post.progress.heights@ == transactions::mined_heights(
                    pre.progress.block_index@,
                    pre.plan.wallet.transactions@,
                )
            },
        }
    }

    /// A block that is not in the main chain is ignored.
    pub open spec fn block_step(
        pre: Migration,
        tx: usize,
        found: Option<u32>,
        r: Result<(), MigrateError>,
        post: Migration,
    ) -> bool {
        let transactions = pre.plan.wallet.transactions@;
        &&& r is Ok
        &&& if tx < transactions.len() {
            &&& post == Migration {
                progress: Progress {
                    stage: Stage::Block { tx: (tx + 1) as usize },
                    block_index: post.progress.block_index,
                    ..pre.progress
                },
                ..pre
            }
            &&& post.progress.block_index@ == match found {
                Some(height) => pre.progress.block_index@.push(
                    (transactions[tx as int].hash_block, height),
                ),
                None => pre.progress.block_index@,
            }
        } else {
            &&& post == Migration {
                progress: Progress {
                    stage: Stage::Birthday,
                    heights: post.progress.heights,
                    ..pre.progress
                },
                ..pre
            }
            &&& post.progress.heights@ == transactions::mined_heights(
                pre.progress.block_index@,
                transactions,
            )
        }
    }

    /// The birthday of the accounts is the height after that of the tree state.
    pub open spec fn birthday_step(
        pre: Migration,
        tree_state: Option<u32>,
        r: Result<(), MigrateError>,
        post: Migration,
    ) -> bool {
        match tree_state {
            Some(height) => {
                &&& r is Ok
                &&& post == Migration {
                    progress: Progress {
                        stage: Stage::LegacyAccount,
                        birthday: transactions::next_height(height),
                        ..pre.progress
                    },
                    ..pre
                }
            },
            None => {
                &&& Self::failed(pre, r, post)
                &&& error::raises(
                    r->Err_0,
                    migration::missing_tree_state(
                        transactions::height_less(pre.birthday_sought(), 1),
                    ),
                )
            },
        }
    }

    /// The legacy account is imported from the mnemonic of the wallet, if it is to be.
    pub open spec fn legacy_account_step(
        pre: Migration,
        account: Option<AccountUuid>,
        r: Result<(), MigrateError>,
        post: Migration,
    ) -> bool {
        &&& r is Ok
        &&& match account {
            Some(_) => post == Migration {
                progress: Progress {
                    stage: Stage::Announce,
                    legacy_account: account,
                    ..pre.progress
                },
                ..pre
            },
            None => Self::moved_to(pre, post, Stage::LegacySeed),
        }
    }

    /// A mnemonic is derived from the legacy seed where the wallet has none of its own, to have an
    /// account for the transparent keys.
    pub open spec fn legacy_seed_step(
        pre: Migration,
        seed_fp: Option<SeedFingerprint>,
        r: Result<(), MigrateError>,
        post: Migration,
    ) -> bool {
        let derives = seed_fp is Some && pre.progress.legacy_account is None
            && pre.plan.wants_legacy_account();
        let seed = pre.plan.wallet.legacy_seed.unwrap()@;
        if derives && seed.len() != 32 {
            &&& Self::failed(pre, r, post)
            &&& error::raises(r->Err_0, migration::no_derived_mnemonic())
        } else if derives {
            &&& r is Ok
            &&& post == Migration {
                progress: Progress {
                    stage: Stage::DerivedMnemonic,
                    legacy_fp: seed_fp,
                    derived: post.progress.derived,
                    ..pre.progress
                },
                ..pre
            }
            &&& post.progress.derived matches Some(m) && m@ == mnemonic::derived_phrase(seed)
        } else {
            &&& r is Ok
            &&& post == Migration {
                progress: Progress {
                    stage: Stage::Unified { idx: 0 },
                    legacy_fp: seed_fp,
                    ..pre.progress
                },
                ..pre
            }
        }
    }

    /// The legacy account is imported from the derived mnemonic.
    pub open spec fn derived_account_step(
        pre: Migration,
        account: AccountUuid,
        r: Result<(), MigrateError>,
        post: Migration,
    ) -> bool {
        &&& r is Ok
        &&& post == Migration {
            progress: Progress {
                stage: Stage::Unified { idx: 0 },
                legacy_account: Some(account),
                ..pre.progress
            },
            ..pre
        }
    }

    /// The unified account at `idx` is looked up, if there is one that far. The migration fails if
    /// its identifier is none of ZIP 32.
    pub open spec fn unified_step(
        pre: Migration,
        idx: usize,
        r: Result<(), MigrateError>,
        post: Migration,
    ) -> bool {
        let accounts = pre.plan.wallet.unified_accounts@;
        if idx >= accounts.len() {
            r is Ok && Self::moved_to(pre, post, Stage::Sapling { idx: 0 })
        } else if accounts::is_account_id(accounts[idx as int].zip32_account_id) {
            r is Ok && Self::moved_to(pre, post, Stage::UnifiedLookup { idx })
        } else {
            &&& Self::failed(pre, r, post)
            &&& r->Err_0 == MigrateError::AccountIdInvalid(accounts[idx as int].zip32_account_id)
        }
    }

    /// The Sapling spending key at `idx` is taken up, if there is one that far. The migration fails
    /// if no viewing key can be made of it, or if the path of its derivation cannot be read.
    pub open spec fn sapling_step(
        pre: Migration,
        idx: usize,
        r: Result<(), MigrateError>,
        post: Migration,
    ) -> bool {
        let keys = pre.plan.wallet.sapling_keys@;
        if idx >= keys.len() {
            r is Ok && Self::moved_to(pre, post, Stage::Viewing { idx: 0 })
        } else {
            match sapling::account_of(keys[idx as int], pre.plan.network) {
                Ok(account) => {
                    &&& r is Ok
                    &&& post == Migration {
                        progress: Progress {
                            stage: Stage::SaplingStandalone { idx },
                            sapling: Some(account),
                            ..pre.progress
                        },
                        ..pre
                    }
                },
                Err(e) => Self::failed(pre, r, post) && r->Err_0 == e,
            }
        }
    }

    /// The Sapling spending key at `idx` is stored and counted if it belongs to neither seed.
    pub open spec fn sapling_standalone_step(
        pre: Migration,
        idx: usize,
        r: Result<(), MigrateError>,
        post: Migration,
    ) -> bool {
        let key_fp = pre.plan.wallet.sapling_keys@[idx as int].seed_fp;
        let stored = sapling::is_standalone(
            key_fp,
            pre.progress.mnemonic_fp,
            pre.progress.legacy_fp,
        );
        &&& r is Ok
        &&& post == Migration {
            progress: Progress {
                stage: Stage::SaplingLookup { idx },
                sapling_standalone: (pre.progress.sapling_standalone + if stored {
                    1int
                } else {
                    0int
                }) as usize,
                ..pre.progress
            },
            ..pre
        }
    }

    /// The Sapling viewing key at `idx` is taken up, if there is one that far. The migration fails
    /// if no unified viewing key can be made of it.
    pub open spec fn viewing_step(
        pre: Migration,
        idx: usize,
        r: Result<(), MigrateError>,
        post: Migration,
    ) -> bool {
        let keys = pre.plan.wallet.sapling_viewing_keys@;
        if idx >= keys.len() {
            r is Ok && Self::moved_to(pre, post, Stage::Encryptor)
        } else {
            match sapling::unified_key_of(keys[idx as int]) {
                Ok(ufvk) => {
                    &&& r is Ok
                    &&& post == Migration {
                        progress: Progress {
                            stage: Stage::ViewingLookup { idx },
                            viewing: Some(ufvk),
                            ..pre.progress
                        },
                        ..pre
                    }
                },
                Err(e) => Self::failed(pre, r, post) && r->Err_0 == MigrateError::KeyDerivation(e),
            }
        }
    }

    /// The transparent key at `idx` is taken up, if there is one that far. The migration fails if
    /// it cannot be decoded.
    pub open spec fn key_step(
        pre: Migration,
        idx: usize,
        r: Result<(), MigrateError>,
        post: Migration,
    ) -> bool {
        let keys = pre.plan.wallet.keys@;
        let key = keys[idx as int];
        if idx >= keys.len() {
            r is Ok && Self::moved_to(pre, post, Stage::StoreKeys)
        } else {
            match r {
                Ok(()) => {
                    &&& post == Migration {
                        progress: Progress {
                            stage: Stage::KeyEncrypt { idx },
                            key: post.progress.key,
                            ..pre.progress
                        },
                        ..pre
                    }
                    &&& post.progress.key matches Some(converted) && transparent_keys::converts(
                        key.pubkey@,
                        transparent::public_key_of(key.pubkey@),
                        transparent_keys::der_secret(key.privkey@),
                        Ok(converted),
                    )
                },
                Err(e) => {
                    &&& post == pre
                    &&& transparent_keys::converts(
                        key.pubkey@,
                        transparent::public_key_of(key.pubkey@),
                        transparent_keys::der_secret(key.privkey@),
                        Err(e),
                    )
                },
            }
        }
    }

    /// The transparent key at `idx` is encrypted, and its public key is kept.
    pub open spec fn key_encrypt_step(
        pre: Migration,
        idx: usize,
        pubkey: PublicKey,
        r: Result<(), MigrateError>,
        post: Migration,
    ) -> bool {
        &&& r is Ok
        &&& post == Migration {
            progress: Progress {
                stage: Stage::Key { idx: (idx + 1) as usize },
                pubkeys: post.progress.pubkeys,
                ..pre.progress
            },
            ..pre
        }
        &&& post.progress.pubkeys@ == pre.progress.pubkeys@.push(pubkey)
    }

    /// The migration has moved on to `stage`, with more addresses to expose.
    pub open spec fn exposing(
        pre: Migration,
        post: Migration,
        stage: Stage,
        addresses: Set<TransparentAddress>,
    ) -> bool {
        &&& post == Migration {
            progress: Progress { stage, to_expose: post.progress.to_expose, ..pre.progress },
            ..pre
        }
        &&& post.progress.to_expose@ == pre.progress.to_expose@.union(addresses)
    }

    /// The transparent keys are stored, and their addresses are exposed. The migration fails if
    /// there is no account to import them into.
    pub open spec fn store_keys_step(
        pre: Migration,
        r: Result<(), MigrateError>,
        post: Migration,
    ) -> bool {
        if pre.progress.legacy_account is None {
            Self::failed(pre, r, post) && r->Err_0 is SeedNotAvailable
        } else {
            &&& r is Ok
            &&& Self::exposing(
                pre,
                post,
                Stage::ImportKeys,
                exposure::key_addresses(watchonly::key_views(pre.progress.pubkeys@)),
            )
        }
    }

    /// The transparent keys are imported. The addresses of the watch-only keys are exposed, if
    /// there is anything to watch.
    pub open spec fn import_keys_step(
        pre: Migration,
        r: Result<(), MigrateError>,
        post: Migration,
    ) -> bool {
        &&& r is Ok
        &&& if pre.plan.has_watched() {
            Self::exposing(
                pre,
                post,
                Stage::ImportWatched,
                exposure::key_addresses(watchonly::key_views(pre.plan.watch.pubkeys@)),
            )
        } else {
            Self::moved_to(pre, post, Stage::Outputs)
        }
    }

    /// The address of a redeem script is exposed if the script was imported.
    pub open spec fn script_step(
        pre: Migration,
        idx: usize,
        imported: Option<bool>,
        r: Result<(), MigrateError>,
        post: Migration,
    ) -> bool {
        let next = Stage::Script { idx: (idx + 1) as usize };
        &&& r is Ok
        &&& match imported {
            Some(true) => {
                &&& post == Migration {
                    progress: Progress {
                        stage: next,
                        to_expose: post.progress.to_expose,
                        scripts_imported: post.progress.scripts_imported,
                        ..pre.progress
                    },
                    ..pre
                }
                &&& post.progress.scripts_imported@ == pre.progress.scripts_imported@.push(true)
                &&& exists|address: TransparentAddress| #[trigger]
                    transparent::addresses_redeem_script(
                        address,
                        pre.plan.scripts.parsed@[idx as int]@,
                    ) && post.progress.to_expose@ == pre.progress.to_expose@.insert(address)
            },
            Some(false) => {
                &&& post == Migration {
                    progress: Progress {
                        stage: next,
                        scripts_imported: post.progress.scripts_imported,
                        unsupported_scripts: (pre.progress.unsupported_scripts + 1) as usize,
                        ..pre.progress
                    },
                    ..pre
                }
                &&& post.progress.scripts_imported@ == pre.progress.scripts_imported@.push(false)
            },
            None => Self::moved_to(pre, post, Stage::Outputs),
        }
    }

    /// Without a chain, every address that a transaction of the wallet pays to is exposed.
    pub open spec fn outputs_step(
        pre: Migration,
        r: Result<(), MigrateError>,
        post: Migration,
    ) -> bool {
        let txs = pre.plan.wallet.transactions@;
        if !pre.plan.options.no_scan {
            r is Ok && Self::moved_to(pre, post, Stage::Receivers)
        } else if forall|i: int| 0 <= i < txs.len() ==> transactions::is_readable(
            #[trigger] txs[i],
        ) {
            &&& r is Ok
            &&& Self::exposing(pre, post, Stage::Receivers, transactions::paid_addresses(txs))
        } else {
            &&& Self::failed(pre, r, post)
            &&& exists|i: int| #[trigger] transactions::unreadable_at(txs, i, r->Err_0)
        }
    }

    /// The addresses of the wallet are known, and those of them that are to be exposed get marks.
    pub open spec fn receivers_step(
        pre: Migration,
        known: Option<Seq<TransparentAddress>>,
        r: Result<(), MigrateError>,
        post: Migration,
    ) -> bool {
        &&& r is Ok
        &&& match known {
            Some(receivers) => {
                &&& post == Migration {
                    progress: Progress {
                        stage: Stage::Mark,
                        marks: post.progress.marks,
                        ..pre.progress
                    },
                    ..pre
                }
                &&& exposure::are_marks(
                    post.progress.marks@,
                    pre.progress.to_expose@,
                    receivers.to_set(),
                    pre.progress.birthday,
                )
            },
            None => Self::moved_to(pre, post, Stage::Buffer),
        }
    }

    /// The transactions of the wallet are read, if they are to be stored. The migration fails if
    /// one of them cannot be read.
    pub open spec fn buffer_step(
        pre: Migration,
        r: Result<(), MigrateError>,
        post: Migration,
    ) -> bool {
        if !pre.plan.options.buffer_wallet_transactions {
            r is Ok && Self::moved_to(pre, post, Stage::Finished)
        } else {
            match r {
                Ok(()) => {
                    &&& post == Migration {
                        progress: Progress {
                            stage: Stage::StoreTransactions,
                            decoded: post.progress.decoded,
                            ..pre.progress
                        },
                        ..pre
                    }
                    &&& transactions::decodes(
                        pre.plan.wallet.transactions@,
                        pre.progress.heights@,
                        pre.plan.upgrades,
                        Ok(post.progress.decoded),
                    )
                },
                Err(e) => {
                    &&& post == pre
                    &&& transactions::decodes(
                        pre.plan.wallet.transactions@,
                        pre.progress.heights@,
                        pre.plan.upgrades,
                        Err(e),
                    )
                },
            }
        }
    }

    /// How the migration goes on from an event.
    pub open spec fn step(
        pre: Migration,
        event: Event,
        r: Result<(), MigrateError>,
        post: Migration,
    ) -> bool {
        match (pre.progress.stage, event) {
            (Stage::Accounts, Event::AccountSources(sources)) => Self::accounts_step(
                pre,
                sources@,
                r,
                post,
            ),
            (Stage::StoreMnemonic, Event::MnemonicStored(fp)) => Self::store_mnemonic_step(
                pre,
                Some(fp),
                r,
                post,
            ),
            (Stage::StoreMnemonic, _) => Self::store_mnemonic_step(pre, None, r, post),
            (Stage::ChainTip, Event::Tip(height)) => Self::chain_tip_step(
                pre,
                Some(height),
                r,
                post,
            ),
            (Stage::ChainTip, _) => Self::chain_tip_step(pre, None, r, post),
            (Stage::Block { tx }, Event::BlockFound(found)) => Self::block_step(
                pre,
                tx,
                found,
                r,
                post,
            ),
            (Stage::Block { tx }, _) => Self::block_step(pre, tx, None, r, post),
            (Stage::Birthday, Event::TreeState(found)) => Self::birthday_step(pre, found, r, post),
            (Stage::Birthday, _) => Self::birthday_step(pre, Some(pre.birthday_sought()), r, post),
            (Stage::LegacyAccount, Event::AccountImported(account)) => Self::legacy_account_step(
                pre,
                Some(account),
                r,
                post,
            ),
            (Stage::LegacyAccount, _) => Self::legacy_account_step(pre, None, r, post),
            (Stage::Announce, _) => r is Ok && Self::moved_to(pre, post, Stage::LegacySeed),
            (Stage::LegacySeed, Event::LegacySeedStored(fp)) => Self::legacy_seed_step(
                pre,
                Some(fp),
                r,
                post,
            ),
            (Stage::LegacySeed, _) => Self::legacy_seed_step(pre, None, r, post),
            (Stage::DerivedMnemonic, _) => r is Ok && Self::moved_to(
                pre,
                post,
                Stage::DerivedAccount,
            ),
            (Stage::DerivedAccount, Event::AccountImported(account)) => Self::derived_account_step(
                pre,
                account,
                r,
                post,
            ),
            (Stage::Unified { idx }, _) => Self::unified_step(pre, idx, r, post),
            (Stage::UnifiedLookup { idx }, Event::AccountFound(found)) => r is Ok && Self::moved_to(
                pre,
                post,
                if found {
                    Stage::Unified { idx: (idx + 1) as usize }
                } else {
                    Stage::UnifiedImport { idx }
                },
            ),
            (Stage::UnifiedImport { idx }, _) => r is Ok && Self::moved_to(
                pre,
                post,
                Stage::Unified { idx: (idx + 1) as usize },
            ),
            (Stage::Sapling { idx }, _) => Self::sapling_step(pre, idx, r, post),
            (Stage::SaplingStandalone { idx }, _) => Self::sapling_standalone_step(
                pre,
                idx,
                r,
                post,
            ),
            (Stage::SaplingLookup { idx }, Event::AccountFound(found)) => r is Ok && Self::moved_to(
                pre,
                post,
                if found {
                    Stage::Sapling { idx: (idx + 1) as usize }
                } else {
                    Stage::SaplingImport { idx }
                },
            ),
            (Stage::SaplingImport { idx }, _) => r is Ok && Self::moved_to(
                pre,
                post,
                Stage::Sapling { idx: (idx + 1) as usize },
            ),
            (Stage::Viewing { idx }, _) => Self::viewing_step(pre, idx, r, post),
            (Stage::ViewingLookup { idx }, Event::AccountFound(found)) => r is Ok && Self::moved_to(
                pre,
                post,
                if found {
                    Stage::Viewing { idx: (idx + 1) as usize }
                } else {
                    Stage::ViewingImport { idx }
                },
            ),
            (Stage::ViewingImport { idx }, _) => r is Ok && Self::moved_to(
                pre,
                post,
                Stage::Viewing { idx: (idx + 1) as usize },
            ),
            (Stage::Encryptor, _) => r is Ok && Self::moved_to(pre, post, Stage::Key { idx: 0 }),
            (Stage::Key { idx }, _) => Self::key_step(pre, idx, r, post),
            (Stage::KeyEncrypt { idx }, Event::KeyEncrypted(pubkey)) => Self::key_encrypt_step(
                pre,
                idx,
                pubkey,
                r,
                post,
            ),
            (Stage::StoreKeys, _) => Self::store_keys_step(pre, r, post),
            (Stage::ImportKeys, _) => Self::import_keys_step(pre, r, post),
            (Stage::ImportWatched, _) => r is Ok && Self::moved_to(
                pre,
                post,
                Stage::Script { idx: 0 },
            ),
            (Stage::Script { idx }, Event::ScriptImported(imported)) => Self::script_step(
                pre,
                idx,
                Some(imported),
                r,
                post,
            ),
            (Stage::Script { idx }, _) => Self::script_step(pre, idx, None, r, post),
            (Stage::Outputs, _) => Self::outputs_step(pre, r, post),
            (Stage::Receivers, Event::Receivers(known)) => Self::receivers_step(
                pre,
                Some(known@),
                r,
                post,
            ),
            (Stage::Receivers, _) => Self::receivers_step(pre, None, r, post),
            (Stage::Mark, _) => r is Ok && Self::moved_to(pre, post, Stage::Buffer),
            (Stage::Buffer, _) => Self::buffer_step(pre, r, post),
            (Stage::StoreTransactions, _) => r is Ok && Self::moved_to(pre, post, Stage::Finished),
            _ => false,
        }
    }
}

// The steps, one stage at a time.

/// The first none of the keys hold no key that belongs to neither seed.
proof fn no_keys_no_standalone(
    keys: Seq<SaplingKey>,
    mnemonic_fp: Option<SeedFingerprint>,
    legacy_fp: Option<SeedFingerprint>,
)
    ensures
        migration::standalone_count(keys.take(0), mnemonic_fp, legacy_fp) == 0,
{
    reveal_with_fuel(Seq::filter, 1);
}

impl Migration {
    fn on_accounts(&mut self, sources: Vec<AccountSource>) -> (r: Result<(), MigrateError>)
        requires
            old(self).wf(),
            old(self).progress.stage == Stage::Accounts,
        ensures
            final(self).wf(),
            Self::accounts_step(*old(self), sources@, r, *final(self)),
    {
        let existing: Vec<SeedFingerprint> = zcashd_seed_fingerprints(&sources);
        let parsed = match parse_mnemonic(self.plan.wallet.mnemonic.as_str()) {
            Ok(parsed) => parsed,
            Err(e) => {
                return Err(MigrateError::from(e));
            },
        };
        self.progress.existing = existing;
        self.progress.mnemonic = parsed;
        self.progress.stage = Stage::StoreMnemonic;
        Ok(())
    }

    fn on_mnemonic_stored(
        &mut self,
        seed_fp: Option<SeedFingerprint>,
    ) -> (r: Result<(), MigrateError>)
        requires
            old(self).wf(),
            old(self).progress.stage == Stage::StoreMnemonic,
            seed_fp is Some <==> old(self).progress.mnemonic is Some,
        ensures
            final(self).wf(),
            Self::store_mnemonic_step(*old(self), seed_fp, r, *final(self)),
    {
        let own: Option<SeedFingerprint> = match &self.progress.mnemonic {
            Some(mnemonic) => Some(mnemonic.seed_fingerprint()),
            None => None,
        };
        match check_import(
            &self.progress.existing,
            self.plan.options.allow_multiple_wallet_imports,
            &own,
        ) {
            Ok(()) => {},
            Err(e) => {
                return Err(e);
            },
        }
        self.progress.mnemonic_fp = seed_fp;
        self.progress.stage = Stage::ChainTip;
        Ok(())
    }

    fn on_chain_tip(&mut self, tip: Option<u32>) -> (r: Result<(), MigrateError>)
        requires
            old(self).wf(),
            old(self).progress.stage == Stage::ChainTip,
            old(self).plan.upgrades.sapling is Some,
            tip is None <==> old(self).plan.options.no_scan,
        ensures
            final(self).wf(),
            Self::chain_tip_step(*old(self), tip, r, *final(self)),
    {
        match tip {
            Some(height) => {
                self.progress.tip = usable_tip(height);
                self.progress.stage = Stage::Block { tx: 0 };
            },
            None => {
                self.progress.heights = transaction_heights(
                    &self.progress.block_index,
                    &self.plan.wallet.transactions,
                );
                self.progress.stage = Stage::Birthday;
            },
        }
        Ok(())
    }

    fn on_block(&mut self, tx: usize, found: Option<u32>) -> (r: Result<(), MigrateError>)
        requires
            old(self).wf(),
            old(self).progress.stage == (Stage::Block { tx }),
            found is Some && tx < old(self).plan.wallet.transactions@.len() ==> !old(
                self,
            ).plan.wallet.transactions@[tx as int].hash_block.is_null(),
        ensures
            final(self).wf(),
            Self::block_step(*old(self), tx, found, r, *final(self)),
    {
        if tx < self.plan.wallet.transactions.len() {
            match found {
                Some(height) => {
                    let hash = self.plan.wallet.transactions[tx].hash_block;
                    self.progress.block_index.push((hash, height));
                },
                None => {},
            }
            self.progress.stage = Stage::Block { tx: tx + 1 };
        } else {
            self.progress.heights = transaction_heights(
                &self.progress.block_index,
                &self.plan.wallet.transactions,
            );
            self.progress.stage = Stage::Birthday;
        }
        Ok(())
    }

    fn on_tree_state(&mut self, tree_state: Option<u32>) -> (r: Result<(), MigrateError>)
        requires
            old(self).wf(),
            old(self).progress.stage == Stage::Birthday,
            tree_state is None ==> !old(self).plan.options.no_scan,
        ensures
            final(self).wf(),
            Self::birthday_step(*old(self), tree_state, r, *final(self)),
    {
        match tree_state {
            Some(height) => {
                self.progress.birthday = if height < u32::MAX {
                    height + 1
                } else {
                    u32::MAX
                };
                self.progress.stage = Stage::LegacyAccount;
                Ok(())
            },
            None => {
                let birthday: u32 = chain_birthday(
                    &self.progress.heights,
                    self.progress.tip,
                    self.plan.upgrades.sapling.unwrap(),
                );
                let height: u32 = if birthday >= 1 {
                    birthday - 1
                } else {
                    0
                };
                let mut text: String = "missing tree state for height ".to_owned();
                text.append(decimal_text(height as u64).as_str());
                Err(
                    MigrateError::raise(
                        Message::with_text("err-migrate-wallet-invalid-chain-data", "err", text),
                    ),
                )
            },
        }
    }

    fn on_legacy_account(&mut self, account: Option<AccountUuid>) -> (r: Result<(), MigrateError>)
        requires
            old(self).wf(),
            old(self).progress.stage == Stage::LegacyAccount,
            account is Some <==> old(self).progress.mnemonic is Some
                && old(self).plan.wants_legacy_account(),
        ensures
            final(self).wf(),
            Self::legacy_account_step(*old(self), account, r, *final(self)),
    {
        match account {
            Some(_) => {
                self.progress.legacy_account = account;
                self.progress.stage = Stage::Announce;
            },
            None => {
                self.progress.stage = Stage::LegacySeed;
            },
        }
        Ok(())
    }

    fn on_legacy_seed(&mut self, seed_fp: Option<SeedFingerprint>) -> (r: Result<(), MigrateError>)
        requires
            old(self).wf(),
            old(self).progress.stage == Stage::LegacySeed,
            seed_fp is Some <==> old(self).plan.wallet.legacy_seed is Some,
        ensures
            final(self).wf(),
            Self::legacy_seed_step(*old(self), seed_fp, r, *final(self)),
    {
        match &self.plan.wallet.legacy_seed {
            Some(seed) => {
                if self.progress.legacy_account.is_none() && self.plan.legacy_account_wanted() {
                    match derive_mnemonic(seed.as_slice()) {
                        Some(mnemonic) => {
                            self.progress.derived = Some(mnemonic);
                            self.progress.legacy_fp = seed_fp;
                            self.progress.stage = Stage::DerivedMnemonic;
                            return Ok(());
                        },
                        None => {
                            return Err(
                                MigrateError::raise(
                                    Message::plain("err-failed-seed-fingerprinting"),
                                ),
                            );
                        },
                    }
                }
            },
            None => {},
        }
        self.progress.legacy_fp = seed_fp;
        self.progress.stage = Stage::Unified { idx: 0 };
        Ok(())
    }

    fn on_derived_account(&mut self, account: AccountUuid) -> (r: Result<(), MigrateError>)
        requires
            old(self).wf(),
            old(self).progress.stage == Stage::DerivedAccount,
        ensures
            final(self).wf(),
            Self::derived_account_step(*old(self), account, r, *final(self)),
    {
        self.progress.legacy_account = Some(account);
        self.progress.stage = Stage::Unified { idx: 0 };
        Ok(())
    }

    fn on_unified(&mut self, idx: usize) -> (r: Result<(), MigrateError>)
        requires
            old(self).wf(),
            old(self).progress.stage == (Stage::Unified { idx }),
            idx < old(self).plan.wallet.unified_accounts@.len() ==> old(self).progress.mnemonic_fp
                == Some(old(self).plan.wallet.unified_accounts@[idx as int].seed_fingerprint),
        ensures
            final(self).wf(),
            Self::unified_step(*old(self), idx, r, *final(self)),
    {
        if idx >= self.plan.wallet.unified_accounts.len() {
            self.progress.stage = Stage::Sapling { idx: 0 };
            proof {
                no_keys_no_standalone(
                    self.plan.wallet.sapling_keys@,
                    self.progress.mnemonic_fp,
                    self.progress.legacy_fp,
                );
            }
            return Ok(());
        }
        match check_account_id(self.plan.wallet.unified_accounts[idx].zip32_account_id) {
            Ok(_) => {
                self.progress.stage = Stage::UnifiedLookup { idx };
                Ok(())
            },
            Err(e) => Err(e),
        }
    }

    fn on_sapling(&mut self, idx: usize) -> (r: Result<(), MigrateError>)
        requires
            old(self).wf(),
            old(self).progress.stage == (Stage::Sapling { idx }),
        ensures
            final(self).wf(),
            Self::sapling_step(*old(self), idx, r, *final(self)),
    {
        if idx >= self.plan.wallet.sapling_keys.len() {
            proof {
                let keys = self.plan.wallet.sapling_keys@;
                assert(keys.take(idx as int) =~= keys);
            }
            self.progress.stage = Stage::Viewing { idx: 0 };
            return Ok(());
        }
        match sapling_account(&self.plan.wallet.sapling_keys[idx], self.plan.network) {
            Ok(account) => {
                self.progress.sapling = Some(account);
                self.progress.stage = Stage::SaplingStandalone { idx };
                Ok(())
            },
            Err(e) => Err(e),
        }
    }

    fn on_sapling_standalone(&mut self, idx: usize) -> (r: Result<(), MigrateError>)
        requires
            old(self).wf(),
            old(self).progress.stage == (Stage::SaplingStandalone { idx }),
        ensures
            final(self).wf(),
            Self::sapling_standalone_step(*old(self), idx, r, *final(self)),
    {
        proof {
            migration::standalone_count_step(
                self.plan.wallet.sapling_keys@,
                self.progress.mnemonic_fp,
                self.progress.legacy_fp,
                idx as int,
            );
            assert(idx < self.plan.wallet.sapling_keys.len());
        }
        if standalone(
            &self.plan.wallet.sapling_keys[idx].seed_fp,
            &self.progress.mnemonic_fp,
            &self.progress.legacy_fp,
        ) {
            self.progress.sapling_standalone = self.progress.sapling_standalone + 1;
        }
        self.progress.stage = Stage::SaplingLookup { idx };
        Ok(())
    }

    fn on_viewing(&mut self, idx: usize) -> (r: Result<(), MigrateError>)
        requires
            old(self).wf(),
            old(self).progress.stage == (Stage::Viewing { idx }),
        ensures
            final(self).wf(),
            Self::viewing_step(*old(self), idx, r, *final(self)),
    {
        if idx >= self.plan.wallet.sapling_viewing_keys.len() {
            self.progress.stage = Stage::Encryptor;
            return Ok(());
        }
        match unified_viewing_key(&self.plan.wallet.sapling_viewing_keys[idx]) {
            Ok(ufvk) => {
                self.progress.viewing = Some(ufvk);
                self.progress.stage = Stage::ViewingLookup { idx };
                Ok(())
            },
            Err(e) => Err(e),
        }
    }

    fn on_key(&mut self, idx: usize) -> (r: Result<(), MigrateError>)
        requires
            old(self).wf(),
            old(self).progress.stage == (Stage::Key { idx }),
            idx < old(self).plan.wallet.keys@.len() ==> transparent_keys::is_convertible(
                old(self).plan.wallet.keys@[idx as int],
            ),
        ensures
            final(self).wf(),
            Self::key_step(*old(self), idx, r, *final(self)),
    {
        if idx >= self.plan.wallet.keys.len() {
            self.progress.stage = Stage::StoreKeys;
            return Ok(());
        }
        match convert_key(&self.plan.wallet.keys[idx]) {
            Ok(key) => {
                self.progress.key = Some(key);
                self.progress.stage = Stage::KeyEncrypt { idx };
                Ok(())
            },
            Err(e) => Err(e),
        }
    }

    fn on_key_encrypted(&mut self, idx: usize, pubkey: PublicKey) -> (r: Result<(), MigrateError>)
        requires
            old(self).wf(),
            old(self).progress.stage == (Stage::KeyEncrypt { idx }),
        ensures
            final(self).wf(),
            Self::key_encrypt_step(*old(self), idx, pubkey, r, *final(self)),
    {
        proof {
            assert(idx < self.plan.wallet.keys.len());
        }
        self.progress.pubkeys.push(pubkey);
        self.progress.stage = Stage::Key { idx: idx + 1 };
        Ok(())
    }

    fn on_keys_stored(&mut self) -> (r: Result<(), MigrateError>)
        requires
            old(self).wf(),
            old(self).progress.stage == Stage::StoreKeys,
        ensures
            final(self).wf(),
            Self::store_keys_step(*old(self), r, *final(self)),
    {
        if self.progress.legacy_account.is_none() {
            return Err(MigrateError::SeedNotAvailable);
        }
        self.progress.to_expose.insert_keys(&self.progress.pubkeys);
        self.progress.stage = Stage::ImportKeys;
        proof {
            assert(self.progress.to_expose@ =~= self.exposed());
        }
        Ok(())
    }

    fn on_keys_imported(&mut self) -> (r: Result<(), MigrateError>)
        requires
            old(self).wf(),
            old(self).progress.stage == Stage::ImportKeys,
        ensures
            final(self).wf(),
            Self::import_keys_step(*old(self), r, *final(self)),
    {
        if self.plan.watched() {
            self.progress.to_expose.insert_keys(&self.plan.watch.pubkeys);
            self.progress.stage = Stage::ImportWatched;
        } else {
            self.progress.stage = Stage::Outputs;
        }
        proof {
            assert(self.progress.to_expose@ =~= self.exposed());
        }
        Ok(())
    }

    fn on_script(&mut self, idx: usize, imported: Option<bool>) -> (r: Result<(), MigrateError>)
        requires
            old(self).wf(),
            old(self).progress.stage == (Stage::Script { idx }),
            imported is Some <==> idx < old(self).plan.scripts.parsed@.len(),
        ensures
            final(self).wf(),
            Self::script_step(*old(self), idx, imported, r, *final(self)),
    {
        let ghost scripts = watchonly::script_views(self.plan.scripts.parsed@);
        let ghost before = self.progress.scripts_imported@;
        proof {
            assert(imported is Some ==> idx < self.plan.scripts.parsed.len());
        }
        match imported {
            Some(is_imported) => {
                let address: TransparentAddress = redeem_address(
                    &self.plan.scripts.parsed[idx],
                ).unwrap();
                proof {
                    migration::refused_step(before, is_imported);
                    migration::script_addresses_step(scripts, before, is_imported, address);
                }
                if is_imported {
                    self.progress.to_expose.insert(address);
                } else {
                    self.progress.unsupported_scripts = self.progress.unsupported_scripts + 1;
                }
                self.progress.scripts_imported.push(is_imported);
                self.progress.stage = Stage::Script { idx: idx + 1 };
                proof {
                    assert(self.progress.to_expose@ =~= self.exposed());
                }
            },
            None => {
                self.progress.stage = Stage::Outputs;
            },
        }
        Ok(())
    }

    fn on_outputs(&mut self) -> (r: Result<(), MigrateError>)
        requires
            old(self).wf(),
            old(self).progress.stage == Stage::Outputs,
        ensures
            final(self).wf(),
            Self::outputs_step(*old(self), r, *final(self)),
    {
        if self.plan.options.no_scan {
            match output_addresses(&self.plan.wallet.transactions) {
                Ok(addresses) => {
                    self.progress.to_expose.insert_all(&addresses);
                },
                Err(e) => {
                    proof {
                        let txs = self.plan.wallet.transactions@;
                        let i = choose|i: int| #[trigger] transactions::unreadable_at(txs, i, e);
                        assert(!transactions::is_readable(txs[i]));
                        let r: Result<(), MigrateError> = Err(e);
                        assert(transactions::unreadable_at(txs, i, r->Err_0));
                    }
                    return Err(e);
                },
            }
        }
        self.progress.stage = Stage::Receivers;
        proof {
            assert(self.progress.to_expose@ =~= self.exposed());
        }
        Ok(())
    }

    fn on_receivers(
        &mut self,
        known: Option<Vec<TransparentAddress>>,
    ) -> (r: Result<(), MigrateError>)
        requires
            old(self).wf(),
            old(self).progress.stage == Stage::Receivers,
        ensures
            final(self).wf(),
            Self::receivers_step(
                *old(self),
                match known {
                    Some(receivers) => Some(receivers@),
                    None => None,
                },
                r,
                *final(self),
            ),
    {
        match known {
            Some(receivers) => {
                self.progress.marks = exposure_marks(
                    &self.progress.to_expose,
                    &receivers,
                    self.progress.birthday,
                );
                self.progress.stage = Stage::Mark;
            },
            None => {
                self.progress.stage = Stage::Buffer;
            },
        }
        Ok(())
    }

    fn on_buffer(&mut self) -> (r: Result<(), MigrateError>)
        requires
            old(self).wf(),
            old(self).progress.stage == Stage::Buffer,
        ensures
            final(self).wf(),
            Self::buffer_step(*old(self), r, *final(self)),
    {
        if !self.plan.options.buffer_wallet_transactions {
            self.progress.stage = Stage::Finished;
            return Ok(());
        }
        match decode_transactions(
            &self.plan.wallet.transactions,
            &self.progress.heights,
            &self.plan.upgrades,
        ) {
            Ok(decoded) => {
                self.progress.decoded = decoded;
                self.progress.stage = Stage::StoreTransactions;
                Ok(())
            },
            Err(e) => Err(e),
        }
    }

}

impl Migration {
    /// Goes on from the outcome of what the migration asked for. On a failure the migration ends
    /// where it is.
    pub fn advance(&mut self, event: Event) -> (r: Result<(), MigrateError>)
        requires
            old(self).wf(),
            old(self).awaits(event),
        ensures
            final(self).wf(),
            Self::step(*old(self), event, r, *final(self)),
    {
        proof {
            self.items_fit();
        }
        match (self.progress.stage, event) {
            (Stage::Accounts, Event::AccountSources(sources)) => self.on_accounts(sources),
            (Stage::StoreMnemonic, Event::MnemonicStored(fp)) => self.on_mnemonic_stored(Some(fp)),
            (Stage::StoreMnemonic, _) => self.on_mnemonic_stored(None),
            (Stage::ChainTip, Event::Tip(height)) => self.on_chain_tip(Some(height)),
            (Stage::ChainTip, _) => self.on_chain_tip(None),
            (Stage::Block { tx }, Event::BlockFound(found)) => self.on_block(tx, found),
            (Stage::Block { tx }, _) => self.on_block(tx, None),
            (Stage::Birthday, Event::TreeState(found)) => self.on_tree_state(found),
            (Stage::Birthday, _) => {
                let height: u32 = no_scan_birthday(
                    &self.plan.wallet.transactions,
                    self.plan.upgrades.sapling.unwrap(),
                );
                self.on_tree_state(Some(height))
            },
            (Stage::LegacyAccount, Event::AccountImported(account)) => self.on_legacy_account(
                Some(account),
            ),
            (Stage::LegacyAccount, _) => self.on_legacy_account(None),
            (Stage::Announce, _) => {
                self.progress.stage = Stage::LegacySeed;
                Ok(())
            },
            (Stage::LegacySeed, Event::LegacySeedStored(fp)) => self.on_legacy_seed(Some(fp)),
            (Stage::LegacySeed, _) => self.on_legacy_seed(None),
            (Stage::DerivedMnemonic, _) => {
                self.progress.stage = Stage::DerivedAccount;
                Ok(())
            },
            (Stage::DerivedAccount, Event::AccountImported(account)) => self.on_derived_account(
                account,
            ),
            (Stage::Unified { idx }, _) => self.on_unified(idx),
            (Stage::UnifiedLookup { idx }, Event::AccountFound(found)) => {
                self.progress.stage = if found {
                    Stage::Unified { idx: idx + 1 }
                } else {
                    Stage::UnifiedImport { idx }
                };
                Ok(())
            },
            (Stage::UnifiedImport { idx }, _) => {
                self.progress.stage = Stage::Unified { idx: idx + 1 };
                Ok(())
            },
            (Stage::Sapling { idx }, _) => self.on_sapling(idx),
            (Stage::SaplingStandalone { idx }, _) => self.on_sapling_standalone(idx),
            (Stage::SaplingLookup { idx }, Event::AccountFound(found)) => {
                self.progress.stage = if found {
                    Stage::Sapling { idx: idx + 1 }
                } else {
                    Stage::SaplingImport { idx }
                };
                Ok(())
            },
            (Stage::SaplingImport { idx }, _) => {
                self.progress.stage = Stage::Sapling { idx: idx + 1 };
                Ok(())
            },
            (Stage::Viewing { idx }, _) => self.on_viewing(idx),
            (Stage::ViewingLookup { idx }, Event::AccountFound(found)) => {
                self.progress.stage = if found {
                    Stage::Viewing { idx: idx + 1 }
                } else {
                    Stage::ViewingImport { idx }
                };
                Ok(())
            },
            (Stage::ViewingImport { idx }, _) => {
                self.progress.stage = Stage::Viewing { idx: idx + 1 };
                Ok(())
            },
            (Stage::Encryptor, _) => {
                self.progress.stage = Stage::Key { idx: 0 };
                Ok(())
            },
            (Stage::Key { idx }, _) => self.on_key(idx),
            (Stage::KeyEncrypt { idx }, Event::KeyEncrypted(pubkey)) => self.on_key_encrypted(
                idx,
                pubkey,
            ),
            (Stage::StoreKeys, _) => self.on_keys_stored(),
            (Stage::ImportKeys, _) => self.on_keys_imported(),
            (Stage::ImportWatched, _) => {
                self.progress.stage = Stage::Script { idx: 0 };
                Ok(())
            },
            (Stage::Script { idx }, Event::ScriptImported(imported)) => self.on_script(
                idx,
                Some(imported),
            ),
            (Stage::Script { idx }, _) => self.on_script(idx, None),
            (Stage::Outputs, _) => self.on_outputs(),
            (Stage::Receivers, Event::Receivers(known)) => self.on_receivers(Some(known)),
            (Stage::Receivers, _) => self.on_receivers(None),
            (Stage::Mark, _) => {
                self.progress.stage = Stage::Buffer;
                Ok(())
            },
            (Stage::Buffer, _) => self.on_buffer(),
            (Stage::StoreTransactions, _) => {
                self.progress.stage = Stage::Finished;
                Ok(())
            },
            _ => {
                assert(false);
                Ok(())
            },
        }
    }

    /// Goes on from the outcome of what the migration asked for, or gives nothing and stays where
    /// it is if the migration cannot go on from it.
    pub fn try_advance(&mut self, event: Event) -> (r: Option<Result<(), MigrateError>>)
        requires
            old(self).wf(),
        ensures
            final(self).wf(),
            r is Some <==> old(self).awaits(event),
            r matches Some(outcome) ==> Self::step(*old(self), event, outcome, *final(self)),
            r is None ==> *final(self) == *old(self),
    {
        if self.accepts(&event) {
            Some(self.advance(event))
        } else {
            None
        }
    }

    /// The numbers of the items that are gone through fit into a machine word.
    pub proof fn items_fit(&self)
        ensures
            self.plan.wallet.transactions@.len() <= usize::MAX,
            self.plan.wallet.unified_accounts@.len() <= usize::MAX,
            self.plan.wallet.sapling_keys@.len() <= usize::MAX,
            self.plan.wallet.sapling_viewing_keys@.len() <= usize::MAX,
            self.plan.wallet.keys@.len() <= usize::MAX,
            self.plan.scripts.parsed@.len() <= usize::MAX,
    {
        assert(self.plan.wallet.transactions.len() <= usize::MAX);
        assert(self.plan.wallet.unified_accounts.len() <= usize::MAX);
        assert(self.plan.wallet.sapling_keys.len() <= usize::MAX);
        assert(self.plan.wallet.sapling_viewing_keys.len() <= usize::MAX);
        assert(self.plan.wallet.keys.len() <= usize::MAX);
        assert(self.plan.scripts.parsed.len() <= usize::MAX);
    }

    /// A migration that has only begun: nothing is known beyond the plan.
    pub open spec fn is_new(&self) -> bool {
        let p = self.progress;
        &&& p.stage == Stage::Accounts
        &&& p.existing@.len() == 0
        &&& p.mnemonic is None
        &&& p.mnemonic_fp is None
        &&& p.tip is None
        &&& p.block_index@.len() == 0
        &&& p.heights@.len() == 0
        &&& p.birthday == 0
        &&& p.legacy_account is None
        &&& p.legacy_fp is None
        &&& p.derived is None
        &&& p.sapling is None
        &&& p.sapling_standalone == 0
        &&& p.viewing is None
        &&& p.key is None
        &&& p.pubkeys@.len() == 0
        &&& p.to_expose@ == Set::<TransparentAddress>::empty()
        &&& p.scripts_imported@.len() == 0
        &&& p.unsupported_scripts == 0
        &&& p.marks@.len() == 0
        &&& p.decoded@.len() == 0
    }

    /// Begins the migration of a wallet, which has to belong to the network of the Zallet wallet.
    pub fn start(
        wallet: Wallet,
        unparsed_records: Vec<String>,
        options: MigrationOptions,
        network: NetworkType,
        upgrades: NetworkUpgrades,
    ) -> (r: Result<Migration, MigrateError>)
        ensures
            match r {
                Ok(migration) => {
                    &&& network::same_network(wallet.network, network)
                    &&& migration.wf()
                    &&& migration.is_new()
                    &&& migration.plan == Plan {
                        wallet,
                        unparsed_records,
                        options,
                        network,
                        upgrades,
                        watch: migration.plan.watch,
                        scripts: migration.plan.scripts,
                    }
                },
                Err(e) => {
                    &&& !network::same_network(wallet.network, network)
                    &&& e == MigrateError::NetworkMismatch {
                        wallet_network: wallet.network,
                        db_network: network,
                    }
                },
            },
    {
        match check_network(wallet.network, network) {
            Ok(_) => {},
            Err(e) => {
                return Err(e);
            },
        }
        let scripts = collect_redeem_scripts(&wallet.redeem_scripts);
        let watch = collect_watch_scripts(&wallet.watch_scripts, &scripts.parsed);
        let plan = Plan { wallet, unparsed_records, options, network, upgrades, watch, scripts };
        let progress = Progress {
            stage: Stage::Accounts,
            existing: Vec::new(),
            mnemonic: None,
            mnemonic_fp: None,
            tip: None,
            block_index: Vec::new(),
            heights: Vec::new(),
            birthday: 0,
            legacy_account: None,
            legacy_fp: None,
            derived: None,
            sapling: None,
            sapling_standalone: 0,
            viewing: None,
            key: None,
            pubkeys: Vec::new(),
            to_expose: AddressSet::new(),
            scripts_imported: Vec::new(),
            unsupported_scripts: 0,
            marks: Vec::new(),
            decoded: Vec::new(),
        };
        let migration = Migration { plan, progress };
        proof {
            assert(migration.progress.to_expose@ =~= migration.exposed());
            assert(migration::refused(migration.progress.scripts_imported@) == 0) by {
                reveal_with_fuel(Seq::filter, 1);
            }
        }
        Ok(migration)
    }

    /// What is reported of a migration, apart from the records that were not interpreted.
    pub open spec fn summarizes(&self, summary: MigrationSummary) -> bool {
        let plan = self.plan;
        let p = self.progress;
        &&& summary.mnemonic_seed == p.mnemonic_fp is Some
        &&& summary.legacy_hd_seed == p.legacy_fp is Some
        &&& summary.unified_accounts == plan.wallet.unified_accounts@.len()
        &&& summary.sapling_spending == plan.wallet.sapling_keys@.len()
        &&& summary.sapling_standalone == p.sapling_standalone
        &&& summary.sapling_viewonly == plan.wallet.sapling_viewing_keys@.len()
        &&& summary.transparent_keys == plan.wallet.keys@.len()
        &&& summary.watchonly_pubkeys == plan.watch.pubkeys@.len()
        &&& summary.watchonly_scripts == plan.scripts.parsed@.len() - p.unsupported_scripts
        &&& summary.skipped_uncompressed_pubkeys == plan.watch.uncompressed
        &&& summary.skipped_p2pkh_address_only == plan.watch.public_key_hash_only
        &&& summary.skipped_p2sh_address_only == plan.watch.script_hash_only
        &&& summary.skipped_nonstandard == plan.watch.nonstandard
        &&& summary.skipped_unsupported_scripts == p.unsupported_scripts
        &&& summary.err_malformed_pubkeys == plan.watch.malformed
        &&& summary.err_unparseable_scripts == plan.scripts.unparseable@.len()
        &&& summary.dropped_sprout_keys == plan.wallet.sprout_keys
        &&& summary.dropped_wkey_keys == plan.wallet.wallet_keys
        &&& summary.unified_address_meta_dropped == plan.wallet.unified_addresses
        &&& records::tallies(summary.unparsed_records, text::texts(plan.unparsed_records@))
    }

    /// The summary of a migration that is complete.
    pub fn summary(&self) -> (r: MigrationSummary)
        requires
            self.wf(),
            self.progress.stage == Stage::Finished,
        ensures
            r.wf(),
            self.summarizes(r),
    {
        let plan = &self.plan;
        let p = &self.progress;
        MigrationSummary {
            mnemonic_seed: p.mnemonic_fp.is_some(),
            legacy_hd_seed: p.legacy_fp.is_some(),
            unified_accounts: plan.wallet.unified_accounts.len(),
            sapling_spending: plan.wallet.sapling_keys.len(),
            sapling_standalone: p.sapling_standalone,
            sapling_viewonly: plan.wallet.sapling_viewing_keys.len(),
            transparent_keys: plan.wallet.keys.len(),
            watchonly_pubkeys: plan.watch.pubkeys.len(),
            watchonly_scripts: plan.scripts.parsed.len() - p.unsupported_scripts,
            skipped_uncompressed_pubkeys: plan.watch.uncompressed,
            skipped_p2pkh_address_only: plan.watch.public_key_hash_only,
            skipped_p2sh_address_only: plan.watch.script_hash_only,
            skipped_nonstandard: plan.watch.nonstandard,
            skipped_unsupported_scripts: p.unsupported_scripts,
            err_malformed_pubkeys: plan.watch.malformed,
            err_unparseable_scripts: plan.scripts.unparseable.len(),
            dropped_sprout_keys: plan.wallet.sprout_keys,
            dropped_wkey_keys: plan.wallet.wallet_keys,
            unified_address_meta_dropped: plan.wallet.unified_addresses,
            unparsed_records: tally_records(&plan.unparsed_records),
        }
    }
}

} // verus!
