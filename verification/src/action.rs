//! What a migration asks to be done, and what it is told of the outcome.

use crate::accounts::{AccountLabel, AccountSource, AccountUuid};
use crate::fingerprint::SeedFingerprint;
use crate::mnemonic::Mnemonic;
use crate::sapling::{AccountLookup, Derivation};
use crate::transactions::{BlockHash, DecodedTransaction};
use crate::transparent::{PublicKey, RedeemScript, TransparentAddress};
use crate::transparent_keys::TransparentKey;
use vstd::prelude::*;

verus! {

/// What an account can be used for.
#[derive(Clone, Copy, Debug)]
pub enum AccountPurpose {
    Spending { derivation: Option<Derivation> },
    ViewOnly,
}

/// What a migration asks to be done next. Every failure of what it asks ends the migration.
pub enum Action<'a> {
    /// Nothing has to be done.
    Proceed,
    /// Read where each account of the wallet database comes from.
    ReadAccountSources,
    /// Encrypt and store a mnemonic.
    StoreMnemonic { mnemonic: &'a Mnemonic },
    /// Take a snapshot of the chain, and read the height of its tip.
    ReadTip,
    /// Look up the height of a block in the main chain.
    FindBlock { hash: BlockHash },
    /// Read the state of the note commitment trees as of a height, and make of it the birthday of
    /// the accounts, which are to be recovered until the given height.
    ReadTreeState { height: u32, recover_until: Option<u32> },
    /// Make of empty note commitment trees at a height the birthday of the accounts.
    UseEmptyTreeState { height: u32 },
    /// Import an account that is derived from the seed of a mnemonic.
    ImportHdAccount {
        label: AccountLabel,
        mnemonic: &'a Mnemonic,
        account_id: u32,
        key_source: &'static str,
    },
    /// Tell the operator the fingerprint of the seed of the legacy account.
    AnnounceSeed { seed_fingerprint: SeedFingerprint },
    /// Encrypt and store a legacy seed.
    StoreLegacySeed { seed: &'a Vec<u8> },
    /// Find out whether an account exists.
    FindAccount { lookup: AccountLookup<'a> },
    /// Encrypt and store a Sapling spending key.
    StoreSaplingKey { extsk: &'a sapling_crypto::zip32::ExtendedSpendingKey },
    /// Import an account that consists of a viewing key.
    ImportViewingKey {
        label: AccountLabel,
        ufvk: &'a zcash_keys::keys::UnifiedFullViewingKey,
        purpose: AccountPurpose,
        key_source: &'static str,
    },
    /// Get ready to encrypt transparent keys.
    OpenEncryptor,
    /// Encrypt a transparent key.
    EncryptKey { key: TransparentKey },
    /// Store the transparent keys that were encrypted.
    StoreEncryptedKeys,
    /// Import public keys into an account.
    ImportPubkeys { account: AccountUuid, pubkeys: &'a Vec<PublicKey> },
    /// Import a redeem script into an account, if scripts of its kind can be imported.
    ImportScript { account: AccountUuid, script: &'a RedeemScript },
    /// Read all the transparent addresses of all accounts.
    ReadReceivers,
    /// Mark addresses as exposed, each at its height.
    MarkExposed { marks: &'a Vec<(TransparentAddress, u32)> },
    /// Read the viewing keys of the accounts and the height of the chain.
    ReadScanContext,
    /// Decrypt and store transactions.
    StoreTransactions { transactions: &'a Vec<DecodedTransaction> },
    /// The migration is complete.
    Finish,
}

/// What a migration is told of the outcome of what it asked for.
pub enum Event {
    /// It was done, and there is nothing more to tell.
    Proceeded,
    /// Where each account of the wallet database comes from.
    AccountSources(Vec<AccountSource>),
    /// The fingerprint of the seed of the mnemonic that was stored.
    MnemonicStored(SeedFingerprint),
    /// The height of the tip of the chain.
    Tip(u32),
    /// The height of the block, if it is in the main chain.
    BlockFound(Option<u32>),
    /// The height of the block that the tree state belongs to, if there is a tree state.
    TreeState(Option<u32>),
    /// The identifier of the account that was imported.
    AccountImported(AccountUuid),
    /// The fingerprint of the legacy seed that was stored.
    LegacySeedStored(SeedFingerprint),
    /// Whether the account exists.
    AccountFound(bool),
    /// The public key of the transparent key that was encrypted.
    KeyEncrypted(PublicKey),
    /// Whether the redeem script was imported; scripts of its kind cannot be otherwise.
    ScriptImported(bool),
    /// The transparent addresses of all accounts.
    Receivers(Vec<TransparentAddress>),
}

/// How far a migration has come, and so what comes next.
#[derive(Clone, Copy, Debug, PartialEq, Eq, Structural)]
pub enum Stage {
    Accounts,
    StoreMnemonic,
    ChainTip,
    Block { tx: usize },
    Birthday,
    LegacyAccount,
    Announce,
    LegacySeed,
    DerivedMnemonic,
    DerivedAccount,
    Unified { idx: usize },
    UnifiedLookup { idx: usize },
    UnifiedImport { idx: usize },
    Sapling { idx: usize },
    SaplingStandalone { idx: usize },
    SaplingLookup { idx: usize },
    SaplingImport { idx: usize },
    Viewing { idx: usize },
    ViewingLookup { idx: usize },
    ViewingImport { idx: usize },
    Encryptor,
    Key { idx: usize },
    KeyEncrypt { idx: usize },
    StoreKeys,
    ImportKeys,
    ImportWatched,
    Script { idx: usize },
    Outputs,
    Receivers,
    Mark,
    Buffer,
    StoreTransactions,
    Finished,
}

impl Stage {
    /// The phases of a migration, in the order in which it goes through them.
    pub open spec fn phase(self) -> int {
        match self {
            Stage::Accounts => 0,
            Stage::StoreMnemonic => 1,
            Stage::ChainTip => 2,
            Stage::Block { .. } => 3,
            Stage::Birthday => 4,
            Stage::LegacyAccount => 5,
            Stage::Announce => 6,
            Stage::LegacySeed => 7,
            Stage::DerivedMnemonic => 8,
            Stage::DerivedAccount => 9,
            Stage::Unified { .. } => 10,
            Stage::UnifiedLookup { .. } => 10,
            Stage::UnifiedImport { .. } => 10,
            Stage::Sapling { .. } => 11,
            Stage::SaplingStandalone { .. } => 11,
            Stage::SaplingLookup { .. } => 11,
            Stage::SaplingImport { .. } => 11,
            Stage::Viewing { .. } => 12,
            Stage::ViewingLookup { .. } => 12,
            Stage::ViewingImport { .. } => 12,
            Stage::Encryptor => 13,
            Stage::Key { .. } => 14,
            Stage::KeyEncrypt { .. } => 14,
            Stage::StoreKeys => 15,
            Stage::ImportKeys => 16,
            Stage::ImportWatched => 17,
            Stage::Script { .. } => 18,
            Stage::Outputs => 19,
            Stage::Receivers => 20,
            Stage::Mark => 21,
            Stage::Buffer => 22,
            Stage::StoreTransactions => 23,
            Stage::Finished => 24,
        }
    }

    /// The place of a stage within its phase, which goes through the items of the wallet.
    pub open spec fn place(self) -> int {
        match self {
            Stage::Block { tx } => tx as int,
            Stage::Unified { idx } => 3 * idx,
            Stage::UnifiedLookup { idx } => 3 * idx + 1,
            Stage::UnifiedImport { idx } => 3 * idx + 2,
            Stage::Sapling { idx } => 4 * idx,
            Stage::SaplingStandalone { idx } => 4 * idx + 1,
            Stage::SaplingLookup { idx } => 4 * idx + 2,
            Stage::SaplingImport { idx } => 4 * idx + 3,
            Stage::Viewing { idx } => 3 * idx,
            Stage::ViewingLookup { idx } => 3 * idx + 1,
            Stage::ViewingImport { idx } => 3 * idx + 2,
            Stage::Key { idx } => 2 * idx,
            Stage::KeyEncrypt { idx } => 2 * idx + 1,
            Stage::Script { idx } => idx as int,
            _ => 0,
        }
    }

    /// Whether this stage comes before another.
    pub open spec fn before(self, other: Stage) -> bool {
        self.phase() < other.phase() || (self.phase() == other.phase() && self.place()
            < other.place())
    }
}

} // verus!
