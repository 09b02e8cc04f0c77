//! What a migration reads of a zcashd wallet.

use crate::fingerprint::SeedFingerprint;
use crate::network::Network;
use crate::sapling::SaplingKey;
use crate::transactions::WalletTransaction;
use crate::transparent_keys::KeyPair;
use crate::watchonly::WatchScriptKind;
use vstd::prelude::*;

verus! {

/// A unified account of a zcashd wallet.
#[derive(Clone, Copy, Debug)]
pub struct UnifiedAccount {
    pub seed_fingerprint: SeedFingerprint,
    pub zip32_account_id: u32,
}

/// A zcashd wallet, as far as a migration reads it.
///
/// The mnemonic is empty where the wallet has none. Of the metadata of unified addresses, of the
/// Sprout keys and of the `wkey` keys only the number counts: none of them is migrated.
pub struct Wallet {
    pub network: Network,
    pub mnemonic: String,
    pub legacy_seed: Option<Vec<u8>>,
    pub transactions: Vec<WalletTransaction>,
    pub keys: Vec<KeyPair>,
    pub watch_scripts: Vec<WatchScriptKind>,
    pub redeem_scripts: Vec<Vec<u8>>,
    pub unified_accounts: Vec<UnifiedAccount>,
    pub unified_addresses: usize,
    pub sapling_keys: Vec<SaplingKey>,
    pub sapling_viewing_keys: Vec<sapling_crypto::zip32::ExtendedFullViewingKey>,
    pub sprout_keys: usize,
    pub wallet_keys: usize,
}

} // verus!
