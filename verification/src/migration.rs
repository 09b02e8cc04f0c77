//! The migration of a zcashd wallet, as a machine that asks for one action after the other.

use crate::accounts;
use crate::accounts::AccountUuid;
use crate::action::Stage;
use crate::consensus::NetworkUpgrades;
use crate::error;
use crate::error::MigrateError;
use crate::exposure;
use crate::exposure::AddressSet;
use crate::fingerprint;
use crate::fingerprint::SeedFingerprint;
use crate::mnemonic;
use crate::mnemonic::Mnemonic;
use crate::network;
use crate::network::NetworkType;
use crate::sapling;
use crate::sapling::{SaplingAccount, SaplingKey};
use crate::sequences;
use crate::text;
use crate::transactions;
use crate::transactions::{BlockHash, DecodedTransaction};
use crate::transparent;
use crate::transparent::{PublicKey, TransparentAddress};
use crate::transparent_keys::TransparentKey;
use crate::wallet::Wallet;
use crate::watchonly;
use crate::watchonly::{RedeemScripts, WatchScripts};
use vstd::prelude::*;

verus! {

/// How a migration is to be done.
#[derive(Clone, Copy, Debug, PartialEq, Eq, Structural)]
pub struct MigrationOptions {
    /// Whether the transactions of the zcashd wallet are stored right away.
    pub buffer_wallet_transactions: bool,
    /// Whether a zcashd wallet may be migrated besides others that were.
    pub allow_multiple_wallet_imports: bool,
    /// Whether the migration does without a chain.
    pub no_scan: bool,
}

/// What a migration is about: all that it knows from the start.
pub struct Plan {
    pub wallet: Wallet,
    pub unparsed_records: Vec<String>,
    pub options: MigrationOptions,
    pub network: NetworkType,
    pub upgrades: NetworkUpgrades,
    pub watch: WatchScripts,
    pub scripts: RedeemScripts,
}

impl Plan {
    /// The wallet belongs to the network, and its watch-only entries were read.
    pub open spec fn wf(&self) -> bool {
        &&& network::same_network(self.wallet.network, self.network)
        &&& self.watch.of(
            self.wallet.watch_scripts@,
            watchonly::script_views(self.scripts.parsed@),
        )
        &&& self.scripts.of(transparent::script_bytes(self.wallet.redeem_scripts@))
    }

    /// Whether there are watch-only keys or scripts to import.
    pub open spec fn has_watched(&self) -> bool {
        self.watch.pubkeys@.len() > 0 || self.scripts.parsed@.len() > 0
    }

    /// Whether an account is needed that holds transparent keys and scripts.
    pub open spec fn wants_legacy_account(&self) -> bool {
        self.wallet.keys@.len() > 0 || self.has_watched()
    }

    /// Whether there is a seed from which that account can be derived.
    pub open spec fn has_seed(&self) -> bool {
        self.wallet.mnemonic@.len() > 0 || self.wallet.legacy_seed is Some
    }

    /// Whether there are watch-only keys or scripts to import.
    pub fn watched(&self) -> (r: bool)
        ensures
            r == self.has_watched(),
    {
        self.watch.pubkeys.len() > 0 || self.scripts.parsed.len() > 0
    }

    /// Whether an account is needed that holds transparent keys and scripts.
    pub fn legacy_account_wanted(&self) -> (r: bool)
        ensures
            r == self.wants_legacy_account(),
    {
        self.wallet.keys.len() > 0 || self.watched()
    }
}

/// What a migration has come to know and to do.
pub struct Progress {
    pub stage: Stage,
    /// The seeds of the zcashd wallets that were migrated before.
    pub existing: Vec<SeedFingerprint>,
    pub mnemonic: Option<Mnemonic>,
    pub mnemonic_fp: Option<SeedFingerprint>,
    pub tip: Option<u32>,
    /// The heights of blocks of the main chain.
    pub block_index: Vec<(BlockHash, u32)>,
    /// The height at which each transaction was mined.
    pub heights: Vec<Option<u32>>,
    pub birthday: u32,
    /// The account that holds transparent keys and scripts.
    pub legacy_account: Option<AccountUuid>,
    pub legacy_fp: Option<SeedFingerprint>,
    /// The mnemonic that was derived from the legacy seed.
    pub derived: Option<Mnemonic>,
    /// The account of the Sapling spending key that is being imported.
    pub sapling: Option<SaplingAccount>,
    pub sapling_standalone: usize,
    /// The Sapling viewing key that is being imported.
    pub viewing: Option<zcash_keys::keys::UnifiedFullViewingKey>,
    /// The transparent key that is being imported.
    pub key: Option<TransparentKey>,
    /// The public keys of the transparent keys that were encrypted.
    pub pubkeys: Vec<PublicKey>,
    /// The addresses that are to be marked as exposed, as far as they are known to the wallet.
    pub to_expose: AddressSet,
    /// Whether each of the redeem scripts that were taken up so far could be imported.
    pub scripts_imported: Vec<bool>,
    pub unsupported_scripts: usize,
    pub marks: Vec<(TransparentAddress, u32)>,
    pub decoded: Vec<DecodedTransaction>,
}

/// The migration of a zcashd wallet.
pub struct Migration {
    pub plan: Plan,
    pub progress: Progress,
}

/// How many of the Sapling keys belong to neither seed.
pub open spec fn standalone_count(
    keys: Seq<SaplingKey>,
    mnemonic_fp: Option<SeedFingerprint>,
    legacy_fp: Option<SeedFingerprint>,
) -> nat {
    keys.filter(
        |key: SaplingKey| sapling::is_standalone(key.seed_fp, mnemonic_fp, legacy_fp),
    ).len()
}

/// The next key adds to the count if it belongs to neither seed.
pub proof fn standalone_count_step(
    keys: Seq<SaplingKey>,
    mnemonic_fp: Option<SeedFingerprint>,
    legacy_fp: Option<SeedFingerprint>,
    i: int,
)
    requires
        0 <= i < keys.len(),
    ensures
        standalone_count(keys.take(i), mnemonic_fp, legacy_fp) <= i,
        standalone_count(keys.take(i + 1), mnemonic_fp, legacy_fp) == standalone_count(
            keys.take(i),
            mnemonic_fp,
            legacy_fp,
        ) + (if sapling::is_standalone(keys[i].seed_fp, mnemonic_fp, legacy_fp) {
            1nat
        } else {
            0nat
        }),
{
    let pred = |key: SaplingKey| sapling::is_standalone(key.seed_fp, mnemonic_fp, legacy_fp);
    sequences::filter_step(keys, i, pred);
    sequences::filter_len(keys.take(i), pred);
}

/// How many of the redeem scripts could not be imported.
pub open spec fn refused(imported: Seq<bool>) -> nat {
    imported.filter(|is_imported: bool| !is_imported).len()
}

/// The next redeem script adds to the count if it could not be imported.
pub proof fn refused_step(imported: Seq<bool>, is_imported: bool)
    ensures
        refused(imported) <= imported.len(),
        refused(imported.push(is_imported)) == refused(imported) + (if is_imported {
            0nat
        } else {
            1nat
        }),
{
    reveal_with_fuel(Seq::filter, 2);
    sequences::filter_len(imported, |is_imported: bool| !is_imported);
    assert(imported.push(is_imported).drop_last() =~= imported);
}

/// The addresses of the redeem scripts that were imported.
pub open spec fn script_addresses(
    scripts: Seq<Seq<u8>>,
    imported: Seq<bool>,
) -> Set<TransparentAddress> {
    Set::new(
        |address: TransparentAddress|
            exists|i: int|
                0 <= i < imported.len() && imported[i]
                    && #[trigger] transparent::addresses_redeem_script(address, scripts[i]),
    )
}

/// A redeem script that is imported adds its address, and no other script adds one.
pub proof fn script_addresses_step(
    scripts: Seq<Seq<u8>>,
    imported: Seq<bool>,
    is_imported: bool,
    address: TransparentAddress,
)
    requires
        imported.len() < scripts.len(),
        transparent::addresses_redeem_script(address, scripts[imported.len() as int]),
    ensures
        script_addresses(scripts, imported.push(is_imported)) == if is_imported {
            script_addresses(scripts, imported).insert(address)
        } else {
            script_addresses(scripts, imported)
        },
{
    let after = imported.push(is_imported);
    let n = imported.len() as int;
    assert forall|a: TransparentAddress| #[trigger]
        script_addresses(scripts, after).contains(a) <==> (script_addresses(
            scripts,
            imported,
        ).contains(a) || (is_imported && a == address)) by {
        if script_addresses(scripts, after).contains(a) {
            let i = choose|i: int|
                0 <= i < after.len() && after[i] && #[trigger] transparent::addresses_redeem_script(
                    a,
                    scripts[i],
                );
            if i < n {
                assert(imported[i]);
            } else {
                transparent::redeem_address_is_unique(a, address, scripts[n]);
            }
        }
        if script_addresses(scripts, imported).contains(a) {
            let i = choose|i: int|
                0 <= i < imported.len() && imported[i]
                    && #[trigger] transparent::addresses_redeem_script(a, scripts[i]);
            assert(after[i]);
        }
        if is_imported && a == address {
            assert(after[n]);
        }
    }
    assert(script_addresses(scripts, after) =~= if is_imported {
        script_addresses(scripts, imported).insert(address)
    } else {
        script_addresses(scripts, imported)
    });
}

/// The fingerprint of the seed of a mnemonic.
pub open spec fn seed_of(mnemonic: Option<Mnemonic>) -> Option<Seq<u8>> {
    match mnemonic {
        Some(m) => Some(fingerprint::fingerprint_of(mnemonic::mnemonic_seed(m@))),
        None => None,
    }
}

/// The failure to find the tree state of a height.
pub open spec fn missing_tree_state(height: u32) -> error::MessageModel {
    error::with_text(
        "err-migrate-wallet-invalid-chain-data"@,
        "err"@,
        "missing tree state for height "@ + text::decimal(height as nat),
    )
}

/// The failure to derive a mnemonic from the legacy seed.
pub open spec fn no_derived_mnemonic() -> error::MessageModel {
    error::plain("err-failed-seed-fingerprinting"@)
}

impl Migration {
    /// The index within the stage is that of an item, or past the last where it may be.
    pub open spec fn stage_in_bounds(&self) -> bool {
        let wallet = self.plan.wallet;
        match self.progress.stage {
            Stage::Block { tx } => tx <= wallet.transactions@.len(),
            Stage::Unified { idx } => idx <= wallet.unified_accounts@.len(),
            Stage::UnifiedLookup { idx } => idx < wallet.unified_accounts@.len(),
            Stage::UnifiedImport { idx } => idx < wallet.unified_accounts@.len(),
            Stage::Sapling { idx } => idx <= wallet.sapling_keys@.len(),
            Stage::SaplingStandalone { idx } => idx < wallet.sapling_keys@.len(),
            Stage::SaplingLookup { idx } => idx < wallet.sapling_keys@.len(),
            Stage::SaplingImport { idx } => idx < wallet.sapling_keys@.len(),
            Stage::Viewing { idx } => idx <= wallet.sapling_viewing_keys@.len(),
            Stage::ViewingLookup { idx } => idx < wallet.sapling_viewing_keys@.len(),
            Stage::ViewingImport { idx } => idx < wallet.sapling_viewing_keys@.len(),
            Stage::Key { idx } => idx <= wallet.keys@.len(),
            Stage::KeyEncrypt { idx } => idx < wallet.keys@.len(),
            Stage::Script { idx } => idx <= self.plan.scripts.parsed@.len(),
            _ => true,
        }
    }

    /// What is known of the mnemonic, and that the import is allowed.
    pub open spec fn mnemonic_wf(&self) -> bool {
        let p = self.progress;
        let phase = p.stage.phase();
        &&& phase >= 1 ==> (p.mnemonic is Some <==> self.plan.wallet.mnemonic@.len() > 0)
        &&& p.mnemonic matches Some(m) ==> (mnemonic::mnemonic_of(
            self.plan.wallet.mnemonic@,
        ) matches Ok(normal) && normal == m@)
        &&& phase >= 2 ==> (p.mnemonic_fp is Some <==> p.mnemonic is Some)
        &&& phase >= 2 ==> accounts::is_import_allowed(
            p.existing@,
            self.plan.options.allow_multiple_wallet_imports,
            seed_of(p.mnemonic),
        )
    }

    /// What is known of the chain.
    pub open spec fn chain_wf(&self) -> bool {
        let p = self.progress;
        let phase = p.stage.phase();
        &&& phase >= 3 ==> self.plan.upgrades.sapling is Some
        &&& phase == 3 ==> !self.plan.options.no_scan
        &&& self.plan.options.no_scan ==> p.tip is None && p.block_index@.len() == 0
        &&& forall|i: int|
            0 <= i < p.block_index@.len() ==> !(#[trigger] p.block_index@[i]).0.is_null()
        &&& phase >= 4 ==> p.heights@ == transactions::mined_heights(
            p.block_index@,
            self.plan.wallet.transactions@,
        )
    }

    /// What is known of the legacy account and of the seeds.
    pub open spec fn legacy_wf(&self) -> bool {
        let p = self.progress;
        let phase = p.stage.phase();
        let plan = self.plan;
        &&& phase <= 5 ==> p.legacy_account is None
        &&& phase == 6 ==> p.mnemonic is Some
        &&& 6 <= phase <= 7 ==> (p.legacy_account is Some <==> p.mnemonic is Some
            && plan.wants_legacy_account())
        &&& 8 <= phase <= 9 ==> {
            &&& p.mnemonic is None
            &&& p.legacy_account is None
            &&& p.derived is Some
            &&& plan.wallet.legacy_seed is Some
            &&& plan.wants_legacy_account()
        }
        &&& phase >= 10 ==> (p.legacy_account is Some <==> plan.wants_legacy_account()
            && plan.has_seed())
        &&& phase >= 8 ==> (p.legacy_fp is Some <==> plan.wallet.legacy_seed is Some)
        &&& phase >= 16 ==> p.legacy_account is Some
        &&& 17 <= phase <= 18 ==> plan.has_watched()
    }

    /// What is known of the item that is being imported.
    pub open spec fn item_wf(&self) -> bool {
        let p = self.progress;
        let wallet = self.plan.wallet;
        match p.stage {
            Stage::UnifiedLookup { idx } | Stage::UnifiedImport { idx } => {
                &&& p.mnemonic is Some
                &&& p.mnemonic_fp == Some(wallet.unified_accounts@[idx as int].seed_fingerprint)
                &&& accounts::is_account_id(wallet.unified_accounts@[idx as int].zip32_account_id)
            },
            Stage::SaplingStandalone { idx } | Stage::SaplingLookup { idx } | Stage::SaplingImport {
                idx,
            } => p.sapling matches Some(account) && sapling::account_of(
                wallet.sapling_keys@[idx as int],
                self.plan.network,
            ) == Ok::<SaplingAccount, MigrateError>(account),
            Stage::ViewingLookup { idx } | Stage::ViewingImport { idx } => {
                p.viewing matches Some(ufvk) && sapling::unified_key_of(
                    wallet.sapling_viewing_keys@[idx as int],
                ) matches Ok(of_key) && of_key == ufvk
            },
            Stage::KeyEncrypt { idx } => p.key is Some,
            _ => true,
        }
    }

    /// What was counted so far.
    pub open spec fn counts_wf(&self) -> bool {
        let p = self.progress;
        let phase = p.stage.phase();
        let wallet = self.plan.wallet;
        &&& phase < 11 ==> p.sapling_standalone == 0
        &&& match p.stage {
            Stage::Sapling { idx } | Stage::SaplingStandalone { idx } => p.sapling_standalone
                == standalone_count(
                wallet.sapling_keys@.take(idx as int),
                p.mnemonic_fp,
                p.legacy_fp,
            ),
            Stage::SaplingLookup { idx } | Stage::SaplingImport { idx } => p.sapling_standalone
                == standalone_count(
                wallet.sapling_keys@.take(idx + 1),
                p.mnemonic_fp,
                p.legacy_fp,
            ),
            _ => true,
        }
        &&& phase > 11 ==> p.sapling_standalone == standalone_count(
            wallet.sapling_keys@,
            p.mnemonic_fp,
            p.legacy_fp,
        )
        &&& phase < 14 ==> p.pubkeys@.len() == 0
        &&& match p.stage {
            Stage::Key { idx } | Stage::KeyEncrypt { idx } => p.pubkeys@.len() == idx,
            _ => true,
        }
        &&& phase > 14 ==> p.pubkeys@.len() == wallet.keys@.len()
        &&& phase < 18 ==> p.scripts_imported@.len() == 0
        &&& match p.stage {
            Stage::Script { idx } => p.scripts_imported@.len() == idx,
            _ => true,
        }
        &&& phase > 18 ==> p.scripts_imported@.len() == self.plan.scripts.parsed@.len()
        &&& p.unsupported_scripts == refused(p.scripts_imported@)
    }

    /// The addresses that are to be exposed at this stage: those of the transparent keys and of the
    /// watch-only keys once these are imported, those of the redeem scripts that were imported, and
    /// without a chain in the end those that the transactions of the wallet pay to.
    pub open spec fn exposed(&self) -> Set<TransparentAddress> {
        let p = self.progress;
        let phase = p.stage.phase();
        let none = Set::<TransparentAddress>::empty();
        let keys = if phase >= 16 {
            exposure::key_addresses(watchonly::key_views(p.pubkeys@))
        } else {
            none
        };
        let watched = if phase >= 17 {
            exposure::key_addresses(watchonly::key_views(self.plan.watch.pubkeys@))
        } else {
            none
        };
        let scripts = script_addresses(
            watchonly::script_views(self.plan.scripts.parsed@),
            p.scripts_imported@,
        );
        let paid = if phase >= 20 && self.plan.options.no_scan {
            transactions::paid_addresses(self.plan.wallet.transactions@)
        } else {
            none
        };
        keys.union(watched).union(scripts).union(paid)
    }

    /// What is known of the addresses that are to be exposed.
    pub open spec fn exposure_wf(&self) -> bool {
        &&& self.progress.to_expose.wf()
        &&& self.progress.to_expose@ == self.exposed()
    }

    /// What holds of a migration at every stage.
    pub open spec fn wf(&self) -> bool {
        &&& self.plan.wf()
        &&& self.stage_in_bounds()
        &&& self.mnemonic_wf()
        &&& self.chain_wf()
        &&& self.legacy_wf()
        &&& self.item_wf()
        &&& self.counts_wf()
        &&& self.exposure_wf()
    }
}

} // verus!
