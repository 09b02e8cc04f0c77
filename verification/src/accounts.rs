//! The accounts of a Zallet wallet that hold what was in a zcashd wallet.

use crate::error::MigrateError;
use crate::fingerprint;
use crate::fingerprint::{contains, SeedFingerprint};
use crate::sequences;
use crate::text;
use crate::text::{decimal_text, same_text};
use vstd::prelude::*;

verus! {

/// The ZIP 32 account identifier of the zcashd account used for maintaining legacy
/// `getnewaddress` and `z_getnewaddress` semantics after the zcashd v4.7.0 upgrade to support
/// using mnemonic-sourced HD derivation for all addresses in the wallet.
pub const ZCASHD_LEGACY_ACCOUNT: u32 = 0x7FFF_FFFF;

/// A source string to identify an account as being derived from the randomly generated binary HD
/// seed used for Sapling key generation prior to the zcashd v4.7.0 upgrade.
pub const ZCASHD_LEGACY_SOURCE: &'static str = "zcashd_legacy";

/// A source string to identify an account as being derived from the mnemonic HD seed used for key
/// derivation after the zcashd v4.7.0 upgrade.
pub const ZCASHD_MNEMONIC_SOURCE: &'static str = "zcashd_mnemonic";

/// The identifier of an account in the wallet database.
#[derive(Clone, Copy, Debug)]
pub struct AccountUuid {
    pub bytes: [u8; 16],
}

/// Where an account of the wallet database comes from.
#[derive(Debug)]
pub enum AccountSource {
    Derived { seed_fingerprint: SeedFingerprint, key_source: Option<String> },
    Imported,
}

/// Whether an account comes from the mnemonic of a zcashd wallet.
pub open spec fn is_zcashd_sourced(source: AccountSource) -> bool {
    source matches AccountSource::Derived { key_source: Some(name), .. } && name@
        == ZCASHD_MNEMONIC_SOURCE@
}

/// The fingerprint of the seed of a derived account.
pub open spec fn source_fingerprint(source: AccountSource) -> SeedFingerprint {
    source->seed_fingerprint
}

/// The fingerprints of the seeds of zcashd wallets that have accounts already.
pub open spec fn zcashd_fingerprints(sources: Seq<AccountSource>) -> Seq<SeedFingerprint> {
    sources.filter(|source: AccountSource| is_zcashd_sourced(source)).map_values(
        |source: AccountSource| source_fingerprint(source),
    )
}

/// The fingerprints of the seeds of zcashd wallets that have accounts already.
pub fn zcashd_seed_fingerprints(sources: &Vec<AccountSource>) -> (r: Vec<SeedFingerprint>)
    ensures
        r@ == zcashd_fingerprints(sources@),
{
    let mut r: Vec<SeedFingerprint> = Vec::new();
    let mut i: usize = 0;
    proof {
        assert(r@ =~= zcashd_fingerprints(sources@.take(0)));
    }
    while i < sources.len()
        invariant
            i <= sources@.len(),
            r@ == zcashd_fingerprints(sources@.take(i as int)),
        decreases sources@.len() - i,
    {
        let ghost before = r@;
        proof {
            sequences::filter_step(
                sources@,
                i as int,
                |source: AccountSource| is_zcashd_sourced(source),
            );
        }
        match &sources[i] {
            AccountSource::Derived { seed_fingerprint, key_source: Some(name) } => {
                if same_text(name.as_str(), ZCASHD_MNEMONIC_SOURCE) {
                    r.push(*seed_fingerprint);
                }
            },
            _ => {},
        }
        proof {
            assert(r@ =~= zcashd_fingerprints(sources@.take(i + 1)));
        }
        i = i + 1;
    }
    proof {
        assert(sources@.take(i as int) =~= sources@);
    }
    r
}

/// Whether one of the fingerprints has the given bytes.
pub open spec fn is_among(fingerprints: Seq<SeedFingerprint>, fingerprint: Seq<u8>) -> bool {
    exists|i: int| 0 <= i < fingerprints.len() && (#[trigger] fingerprints[i])@ == fingerprint
}

/// The seed of an account that comes from the mnemonic of a zcashd wallet is among those that have
/// accounts already.
pub proof fn zcashd_sourced_is_found(sources: Seq<AccountSource>, i: int)
    requires
        0 <= i < sources.len(),
        is_zcashd_sourced(sources[i]),
    ensures
        is_among(zcashd_fingerprints(sources), source_fingerprint(sources[i])@),
{
    let pred = |source: AccountSource| is_zcashd_sourced(source);
    sequences::filter_keeps(sources, pred, sources[i]);
    let kept = sources.filter(pred);
    let j = choose|j: int| 0 <= j < kept.len() && kept[j] == sources[i];
    assert(zcashd_fingerprints(sources)[j] == source_fingerprint(sources[i]));
}

/// Whether `r` answers the question if a wallet may be imported besides those that were, `existing`
/// being the fingerprints of their seeds and `seed` that of the wallet's own. With none before,
/// any may; otherwise several wallets have to be allowed, and no wallet may be imported twice.
pub open spec fn import_answer(
    existing: Seq<SeedFingerprint>,
    allow_multiple: bool,
    seed: Option<Seq<u8>>,
    r: Result<(), MigrateError>,
) -> bool {
    if existing.len() == 0 {
        r is Ok
    } else if !allow_multiple {
        r matches Err(e) && e is MultiImportDisabled
    } else if seed is Some && is_among(existing, seed.unwrap()) {
        r matches Err(e) && e is DuplicateImport && e->DuplicateImport_0@ == seed.unwrap()
    } else {
        r is Ok
    }
}

/// Whether a wallet may be imported besides those that were.
pub open spec fn is_import_allowed(
    existing: Seq<SeedFingerprint>,
    allow_multiple: bool,
    seed: Option<Seq<u8>>,
) -> bool {
    existing.len() == 0 || (allow_multiple && !(seed is Some && is_among(existing, seed.unwrap())))
}

/// Checks whether a wallet may be imported besides those that were.
pub fn check_import(
    existing: &Vec<SeedFingerprint>,
    allow_multiple: bool,
    seed: &Option<SeedFingerprint>,
) -> (r: Result<(), MigrateError>)
    ensures
        import_answer(
            existing@,
            allow_multiple,
            match seed {
                Some(fingerprint) => Some(fingerprint@),
                None => None,
            },
            r,
        ),
{
    if existing.len() == 0 {
        return Ok(());
    }
    if !allow_multiple {
        return Err(MigrateError::MultiImportDisabled);
    }
    match seed {
        Some(fingerprint) => {
            if contains(existing, fingerprint) {
                proof {
                    let i = existing@.index_of(*fingerprint);
                    assert(existing@[i]@ == fingerprint@);
                }
                return Err(MigrateError::DuplicateImport(*fingerprint));
            }
            proof {
                fingerprint::bytes_settle_fingerprints(existing@, *fingerprint);
            }
            Ok(())
        },
        None => Ok(()),
    }
}

/// An import succeeds exactly where it is allowed.
pub proof fn import_answer_is_permission(
    existing: Seq<SeedFingerprint>,
    allow_multiple: bool,
    seed: Option<Seq<u8>>,
    r: Result<(), MigrateError>,
)
    requires
        import_answer(existing, allow_multiple, seed, r),
    ensures
        r is Ok <==> is_import_allowed(existing, allow_multiple, seed),
{
}

/// Whether a number can be a ZIP 32 account identifier: the identifiers are hardened, which leaves
/// 31 bits.
pub open spec fn is_account_id(id: u32) -> bool {
    id < 0x8000_0000
}

/// Checks that a number is a ZIP 32 account identifier.
pub fn check_account_id(id: u32) -> (r: Result<u32, MigrateError>)
    ensures
        r == (if is_account_id(id) {
            Ok(id)
        } else {
            Err(MigrateError::AccountIdInvalid(id))
        }),
{
    if id < 0x8000_0000 {
        Ok(id)
    } else {
        Err(MigrateError::AccountIdInvalid(id))
    }
}

/// An account that the migration names.
#[derive(Clone, Copy, Debug, PartialEq, Eq, Structural)]
pub enum AccountLabel {
    /// The account that holds the transparent keys.
    LegacyTransparent,
    /// A unified account, by its ZIP 32 account identifier.
    Unified(u32),
    /// The account of a Sapling spending key, by its place among them.
    LegacySapling(usize),
    /// The account of a Sapling viewing key, by its place among them.
    ViewOnlySapling(usize),
}

impl AccountLabel {
    /// The name of the account.
    pub open spec fn name(self) -> Seq<char> {
        match self {
            AccountLabel::LegacyTransparent => {
                "zcashd post-v4.7.0 legacy transparent account "@ + text::decimal(
                    ZCASHD_LEGACY_ACCOUNT as nat,
                )
            },
            AccountLabel::Unified(id) => {
                "zcashd imported unified account "@ + text::decimal(id as nat)
            },
            AccountLabel::LegacySapling(idx) => {
                "zcashd legacy sapling "@ + text::decimal(idx as nat)
            },
            AccountLabel::ViewOnlySapling(idx) => {
                "zcashd imported view-only sapling "@ + text::decimal(idx as nat)
            },
        }
    }

    /// The name of the account.
    pub fn text(self) -> (r: String)
        ensures
            r@ == self.name(),
    {
        match self {
            AccountLabel::LegacyTransparent => {
                let mut text: String = "zcashd post-v4.7.0 legacy transparent account ".to_owned();
                text.append(decimal_text(ZCASHD_LEGACY_ACCOUNT as u64).as_str());
                text
            },
            AccountLabel::Unified(id) => {
                let mut text: String = "zcashd imported unified account ".to_owned();
                text.append(decimal_text(id as u64).as_str());
                text
            },
            AccountLabel::LegacySapling(idx) => {
                let mut text: String = "zcashd legacy sapling ".to_owned();
                text.append(decimal_text(idx as u64).as_str());
                text
            },
            AccountLabel::ViewOnlySapling(idx) => {
                let mut text: String = "zcashd imported view-only sapling ".to_owned();
                text.append(decimal_text(idx as u64).as_str());
                text
            },
        }
    }
}

/// The seeds that are found are those of the accounts that come from the mnemonic of a zcashd wallet,
/// and of no others.
pub proof fn found_seeds_are_of_zcashd_accounts(sources: Seq<AccountSource>, fp: SeedFingerprint)
    ensures
        zcashd_fingerprints(sources).contains(fp) <==> exists|i: int|
            #![trigger sources[i]]
            0 <= i < sources.len() && sources[i] is Derived && sources[i]->seed_fingerprint == fp
                && sources[i]->key_source is Some && sources[i]->key_source.unwrap()@
                == "zcashd_mnemonic"@,
{
    let pred = |source: AccountSource| is_zcashd_sourced(source);
    let kept = sources.filter(pred);
    let found = zcashd_fingerprints(sources);
    if found.contains(fp) {
        let j = found.index_of(fp);
        assert(kept.contains(kept[j]));
        sequences::filtered_passes(sources, pred, kept[j]);
        let i = sources.index_of(kept[j]);
        assert(sources[i] == kept[j]);
    }
    if exists|i: int|
        #![trigger sources[i]]
        0 <= i < sources.len() && sources[i] is Derived && sources[i]->seed_fingerprint == fp
            && sources[i]->key_source is Some && sources[i]->key_source.unwrap()@
            == "zcashd_mnemonic"@ {
        let i = choose|i: int|
            #![trigger sources[i]]
            0 <= i < sources.len() && sources[i] is Derived && sources[i]->seed_fingerprint == fp
                && sources[i]->key_source is Some && sources[i]->key_source.unwrap()@
                == "zcashd_mnemonic"@;
        sequences::filter_keeps(sources, pred, sources[i]);
        let j = kept.index_of(sources[i]);
        assert(found[j] == fp);
    }
}

} // verus!
