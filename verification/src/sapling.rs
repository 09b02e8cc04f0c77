//! The Sapling keys of a zcashd wallet: how each was derived, and which account it belongs to.

use crate::accounts::ZCASHD_LEGACY_ACCOUNT;
use crate::error::MigrateError;
use crate::fingerprint::{same_option, SeedFingerprint};
use crate::network::NetworkType;
use vstd::prelude::*;

verus! {

/// The viewing key of an account.
#[verifier::external_type_specification]
#[verifier::external_body]
pub struct ExUnifiedFullViewingKey(zcash_keys::keys::UnifiedFullViewingKey);

/// A Sapling extended spending key.
#[verifier::external_type_specification]
#[verifier::external_body]
pub struct ExExtendedSpendingKey(sapling_crypto::zip32::ExtendedSpendingKey);

/// A Sapling extended full viewing key.
#[verifier::external_type_specification]
#[verifier::external_body]
pub struct ExExtendedFullViewingKey(sapling_crypto::zip32::ExtendedFullViewingKey);

/// The extended full viewing key of an extended spending key.
pub uninterp spec fn full_viewing_key_of(
    key: sapling_crypto::zip32::ExtendedSpendingKey,
) -> sapling_crypto::zip32::ExtendedFullViewingKey;

/// The unified viewing key that holds only an extended full viewing key.
pub uninterp spec fn unified_key_of(
    key: sapling_crypto::zip32::ExtendedFullViewingKey,
) -> Result<zcash_keys::keys::UnifiedFullViewingKey, zcash_keys::keys::DerivationError>;

/// Calls `sapling_crypto::zip32::ExtendedSpendingKey::to_extended_full_viewing_key`, whose result
/// is determined by the key.
#[verifier::external_body]
fn to_extended_full_viewing_key(key: &sapling_crypto::zip32::ExtendedSpendingKey) -> (r:
    sapling_crypto::zip32::ExtendedFullViewingKey)
    ensures
        r == full_viewing_key_of(*key),
{
    #[allow(deprecated)]
    let key = key.to_extended_full_viewing_key();
    key
}

/// Calls `zcash_keys::keys::UnifiedFullViewingKey::from_sapling_extended_full_viewing_key`, whose
/// result is determined by the key.
#[verifier::external_body]
fn from_sapling_extended_full_viewing_key(
    key: &sapling_crypto::zip32::ExtendedFullViewingKey,
) -> (r: Result<zcash_keys::keys::UnifiedFullViewingKey, zcash_keys::keys::DerivationError>)
    ensures
        r == unified_key_of(*key),
{
    zcash_keys::keys::UnifiedFullViewingKey::from_sapling_extended_full_viewing_key(key.clone())
}

/// The unified viewing key that holds only an extended full viewing key.
pub fn unified_viewing_key(key: &sapling_crypto::zip32::ExtendedFullViewingKey) -> (r: Result<
    zcash_keys::keys::UnifiedFullViewingKey,
    MigrateError,
>)
    ensures
        r == (match unified_key_of(*key) {
            Ok(ufvk) => Ok(ufvk),
            Err(e) => Err(MigrateError::KeyDerivation(e)),
        }),
{
    match from_sapling_extended_full_viewing_key(key) {
        Ok(ufvk) => Ok(ufvk),
        Err(e) => Err(MigrateError::from(e)),
    }
}

/// How zcashd derived a key from its seed.
#[derive(Clone, Copy, Debug, PartialEq, Eq, Structural)]
pub enum HdDerivation {
    /// As ZIP 32 derives the keys of an account.
    Zip32 { account_id: u32 },
    /// Under the legacy account, with an address index of its own.
    Post470LegacySapling { address_index: u32 },
}

/// The derivation that a key path stands for on the given network.
pub uninterp spec fn hd_path(network: NetworkType, path: Seq<char>) -> Result<
    HdDerivation,
    zcash_keys::keys::zcashd::PathParseError,
>;

/// Calls `zcash_keys::keys::zcashd::ZcashdHdDerivation::parse_hd_path`. The result is determined by
/// the network and the path. Account identifiers and address indices are less than 2^31.
#[verifier::external_body]
fn parse_hd_path(network: NetworkType, path: &str) -> (r: Result<
    HdDerivation,
    zcash_keys::keys::zcashd::PathParseError,
>)
    ensures
        r == hd_path(network, path@),
        r matches Ok(HdDerivation::Zip32 { account_id }) ==> account_id < 0x8000_0000,
        r matches Ok(HdDerivation::Post470LegacySapling { address_index }) ==> address_index
            < 0x8000_0000,
{
    let network = match network {
        NetworkType::Main => zcash_protocol::consensus::NetworkType::Main,
        NetworkType::Test => zcash_protocol::consensus::NetworkType::Test,
        NetworkType::Regtest => zcash_protocol::consensus::NetworkType::Regtest,
    };
    let parsed = zcash_keys::keys::zcashd::ZcashdHdDerivation::parse_hd_path(&network, path)?;
    Ok(match parsed {
        zcash_keys::keys::zcashd::ZcashdHdDerivation::Zip32 { account_id } => {
            HdDerivation::Zip32 { account_id: account_id.into() }
        },
        zcash_keys::keys::zcashd::ZcashdHdDerivation::Post470LegacySapling { address_index } => {
            HdDerivation::Post470LegacySapling { address_index: address_index.into() }
        },
    })
}

/// Where the key of an account comes from: the seed, the ZIP 32 account, and the address index for
/// keys under the legacy account.
#[derive(Clone, Copy, Debug)]
pub struct Derivation {
    pub seed_fingerprint: SeedFingerprint,
    pub account_index: u32,
    pub legacy_address_index: Option<u32>,
}

/// A Sapling spending key of a zcashd wallet, with what the wallet knows of its origin.
pub struct SaplingKey {
    pub extsk: sapling_crypto::zip32::ExtendedSpendingKey,
    pub seed_fp: Option<SeedFingerprint>,
    pub hd_keypath: Option<String>,
}

/// Where a key comes from that was derived in the given way from the given seed. Either being
/// unknown, so is the origin.
pub open spec fn origin(
    parsed: Option<HdDerivation>,
    seed_fp: Option<SeedFingerprint>,
) -> Option<Derivation> {
    match (parsed, seed_fp) {
        (Some(HdDerivation::Zip32 { account_id }), Some(seed_fingerprint)) => Some(
            Derivation {
                seed_fingerprint,
                account_index: account_id,
                legacy_address_index: None,
            },
        ),
        (Some(HdDerivation::Post470LegacySapling { address_index }), Some(seed_fingerprint)) => {
            Some(
                Derivation {
                    seed_fingerprint,
                    account_index: ZCASHD_LEGACY_ACCOUNT,
                    legacy_address_index: Some(address_index),
                },
            )
        },
        _ => None,
    }
}

/// Where a key comes from that was derived in the given way from the given seed.
pub fn key_origin(parsed: Option<HdDerivation>, seed_fp: Option<SeedFingerprint>) -> (r: Option<
    Derivation,
>)
    ensures
        r == origin(parsed, seed_fp),
{
    match (parsed, seed_fp) {
        (Some(HdDerivation::Zip32 { account_id }), Some(seed_fingerprint)) => Some(
            Derivation {
                seed_fingerprint,
                account_index: account_id,
                legacy_address_index: None,
            },
        ),
        (Some(HdDerivation::Post470LegacySapling { address_index }), Some(seed_fingerprint)) => {
            Some(
                Derivation {
                    seed_fingerprint,
                    account_index: ZCASHD_LEGACY_ACCOUNT,
                    legacy_address_index: Some(address_index),
                },
            )
        },
        _ => None,
    }
}

/// Whether a key belongs to neither of the wallet's seeds, and so has to be kept by itself. A key
/// whose seed is unknown belongs to none.
pub open spec fn is_standalone(
    key_seed_fp: Option<SeedFingerprint>,
    mnemonic_seed_fp: Option<SeedFingerprint>,
    legacy_seed_fp: Option<SeedFingerprint>,
) -> bool {
    !(key_seed_fp is Some && (key_seed_fp == mnemonic_seed_fp || key_seed_fp == legacy_seed_fp))
}

/// Whether a key belongs to neither of the wallet's seeds, and so has to be kept by itself.
pub fn standalone(
    key_seed_fp: &Option<SeedFingerprint>,
    mnemonic_seed_fp: &Option<SeedFingerprint>,
    legacy_seed_fp: &Option<SeedFingerprint>,
) -> (r: bool)
    ensures
        r == is_standalone(*key_seed_fp, *mnemonic_seed_fp, *legacy_seed_fp),
{
    key_seed_fp.is_none() || (!same_option(key_seed_fp, mnemonic_seed_fp) && !same_option(
        key_seed_fp,
        legacy_seed_fp,
    ))
}

/// The account of a Sapling spending key: its viewing key, and where the key comes from.
pub struct SaplingAccount {
    pub ufvk: zcash_keys::keys::UnifiedFullViewingKey,
    pub derivation: Option<Derivation>,
}

/// The account of a Sapling spending key, or why it has none: its viewing key could not be derived,
/// or its key path could not be read.
pub open spec fn account_of(key: SaplingKey, network: NetworkType) -> Result<
    SaplingAccount,
    MigrateError,
> {
    match unified_key_of(full_viewing_key_of(key.extsk)) {
        Err(e) => Err(MigrateError::KeyDerivation(e)),
        Ok(ufvk) => match key.hd_keypath {
            None => Ok(SaplingAccount { ufvk, derivation: None }),
            Some(path) => match hd_path(network, path@) {
                Err(e) => Err(MigrateError::HdPath(e)),
                Ok(parsed) => Ok(
                    SaplingAccount { ufvk, derivation: origin(Some(parsed), key.seed_fp) },
                ),
            },
        },
    }
}

/// The account of a Sapling spending key.
pub fn sapling_account(key: &SaplingKey, network: NetworkType) -> (r: Result<
    SaplingAccount,
    MigrateError,
>)
    ensures
        r == account_of(*key, network),
{
    let extfvk = to_extended_full_viewing_key(&key.extsk);
    let ufvk = match unified_viewing_key(&extfvk) {
        Ok(ufvk) => ufvk,
        Err(e) => {
            return Err(e);
        },
    };
    match &key.hd_keypath {
        None => Ok(SaplingAccount { ufvk, derivation: None }),
        Some(path) => match parse_hd_path(network, path.as_str()) {
            Ok(parsed) => Ok(
                SaplingAccount { ufvk, derivation: key_origin(Some(parsed), key.seed_fp) },
            ),
            Err(e) => Err(MigrateError::from(e)),
        },
    }
}

/// How it is found out whether the account of a Sapling key exists already.
pub enum AccountLookup<'a> {
    /// By its origin from a seed, under the legacy account.
    ByDerivation(Derivation),
    /// By its viewing key.
    ByViewingKey(&'a zcash_keys::keys::UnifiedFullViewingKey),
}

/// How it is found out whether the account of a Sapling key exists already: by its origin where its
/// seed is known, and by its viewing key where it is not.
pub open spec fn lookup_of<'a>(
    seed_fp: Option<SeedFingerprint>,
    account: &'a SaplingAccount,
) -> AccountLookup<'a> {
    match seed_fp {
        Some(seed_fingerprint) => AccountLookup::ByDerivation(
            Derivation {
                seed_fingerprint,
                account_index: ZCASHD_LEGACY_ACCOUNT,
                legacy_address_index: match account.derivation {
                    Some(derivation) => derivation.legacy_address_index,
                    None => None,
                },
            },
        ),
        None => AccountLookup::ByViewingKey(&account.ufvk),
    }
}

/// How it is found out whether the account of a Sapling key exists already.
pub fn account_lookup<'a>(seed_fp: &Option<SeedFingerprint>, account: &'a SaplingAccount) -> (r:
    AccountLookup<'a>)
    ensures
        r == lookup_of(*seed_fp, account),
{
    match seed_fp {
        Some(seed_fingerprint) => AccountLookup::ByDerivation(
            Derivation {
                seed_fingerprint: *seed_fingerprint,
                account_index: ZCASHD_LEGACY_ACCOUNT,
                legacy_address_index: match &account.derivation {
                    Some(derivation) => derivation.legacy_address_index,
                    None => None,
                },
            },
        ),
        None => AccountLookup::ByViewingKey(&account.ufvk),
    }
}

} // verus!
