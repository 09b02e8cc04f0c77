//! What a migration asks for, what it takes for an answer, and for which reasons it fails.

use crate::accounts;
use crate::accounts::{AccountLabel, AccountSource};
use crate::action::{Action, Event, Stage};
use crate::error::{CommandError, MigrateError};
use crate::fingerprint;
use crate::fingerprint::SeedFingerprint;
use crate::migrator::{Advance, Migrator};
use crate::mnemonic;
use crate::sapling;
use crate::sapling::AccountLookup;
use crate::text;
use crate::transactions;
use crate::transparent;
use crate::transparent_keys;
use vstd::prelude::*;

verus! {

/// Every account that is derived from a seed is either the legacy account, under the last of the
/// account identifiers, or a unified account of the wallet, under its own identifier and from the
/// mnemonic of the wallet.
pub proof fn derived_accounts_are_of_the_wallet(state: Migrator, asked: Action<'_>)
    requires
        call_ensures(Migrator::action, (&state,), asked),
    ensures
        asked matches Action::ImportHdAccount { label, mnemonic, account_id, key_source } ==> {
            &&& key_source@ == "zcashd_mnemonic"@
            &&& match label {
                AccountLabel::LegacyTransparent => {
                    &&& account_id == 0x7fff_ffff
                    &&& state@.progress.mnemonic == Some(*mnemonic) || state@.progress.derived
                        == Some(*mnemonic)
                    &&& state@.plan.wallet.keys@.len() > 0 || state@.plan.watch.pubkeys@.len() > 0
                        || state@.plan.scripts.parsed@.len() > 0
                },
                AccountLabel::Unified(number) => {
                    &&& number == account_id
                    &&& mnemonic::mnemonic_of(state@.plan.wallet.mnemonic@) == Ok::<
                        Seq<char>,
                        bip0039::Error,
                    >(mnemonic@)
                    &&& exists|i: int|
                        #![trigger state@.plan.wallet.unified_accounts@[i]]
                        0 <= i < state@.plan.wallet.unified_accounts@.len()
                            && state@.plan.wallet.unified_accounts@[i].zip32_account_id
                            == account_id
                            && state@.progress.mnemonic_fp == Some(
                            state@.plan.wallet.unified_accounts@[i].seed_fingerprint,
                        )
                },
                _ => false,
            }
        },
{
    match state@.progress.stage {
        Stage::UnifiedImport { idx } => {
            let account = state@.plan.wallet.unified_accounts@[idx as int];
            assert(account.zip32_account_id < 0x8000_0000);
        },
        _ => {},
    }
}

/// A Sapling key is kept by itself only if it is one of the wallet, and its seed is neither that of
/// the mnemonic nor the legacy seed.
pub proof fn stored_keys_are_of_neither_seed(state: Migrator, asked: Action<'_>)
    requires
        call_ensures(Migrator::action, (&state,), asked),
    ensures
        asked matches Action::StoreSaplingKey { extsk } ==> exists|i: int|
            #![trigger state@.plan.wallet.sapling_keys@[i]]
            0 <= i < state@.plan.wallet.sapling_keys@.len()
                && state@.plan.wallet.sapling_keys@[i].extsk == *extsk
                && match state@.plan.wallet.sapling_keys@[i].seed_fp {
                Some(seed) => state@.progress.mnemonic_fp != Some(seed)
                    && state@.progress.legacy_fp != Some(seed),
                None => true,
            },
{
    match state@.progress.stage {
        Stage::SaplingStandalone { idx } => {
            let key = state@.plan.wallet.sapling_keys@[idx as int];
            assert(state@.plan.wallet.sapling_keys@[idx as int] == key);
        },
        _ => {},
    }
}

/// A viewing key that is imported is that of a Sapling key of the wallet, under the place of that
/// key in the wallet: that of a spending key for spending, and a mere viewing key for viewing.
pub proof fn viewing_keys_are_of_the_wallet(state: Migrator, asked: Action<'_>)
    requires
        call_ensures(Migrator::action, (&state,), asked),
    ensures
        asked matches Action::ImportViewingKey { label, ufvk, purpose, key_source } ==> {
            &&& key_source@ == "zcashd_legacy"@
            &&& match label {
                AccountLabel::LegacySapling(i) => {
                    &&& i < state@.plan.wallet.sapling_keys@.len()
                    &&& purpose is Spending
                    &&& sapling::unified_key_of(
                        sapling::full_viewing_key_of(
                            state@.plan.wallet.sapling_keys@[i as int].extsk,
                        ),
                    ) matches Ok(key) && key == *ufvk
                    &&& purpose->derivation matches Some(d) ==> Some(d.seed_fingerprint)
                        == state@.plan.wallet.sapling_keys@[i as int].seed_fp
                    &&& state@.plan.wallet.sapling_keys@[i as int].hd_keypath is None
                        ==> purpose->derivation is None
                },
                AccountLabel::ViewOnlySapling(i) => {
                    &&& i < state@.plan.wallet.sapling_viewing_keys@.len()
                    &&& purpose is ViewOnly
                    &&& sapling::unified_key_of(
                        state@.plan.wallet.sapling_viewing_keys@[i as int],
                    ) matches Ok(key) && key == *ufvk
                },
                _ => false,
            }
        },
{
}

/// Everything else that is asked for is about what the wallet holds, or about what the migration
/// was told: nothing is asked of a chain that is not to be used, and nothing is stored that is not
/// to be.
pub proof fn questions_are_about_the_wallet(state: Migrator, asked: Action<'_>)
    requires
        call_ensures(Migrator::action, (&state,), asked),
    ensures
        asked matches Action::StoreMnemonic { mnemonic } ==> state@.progress.mnemonic == Some(
            *mnemonic,
        ) || state@.progress.derived == Some(*mnemonic),
        asked is ReadTip ==> !state@.plan.options.no_scan,
        asked matches Action::FindBlock { hash } ==> !state@.plan.options.no_scan
            && !hash.is_null() && exists|i: int|
            #![trigger state@.plan.wallet.transactions@[i]]
            0 <= i < state@.plan.wallet.transactions@.len()
                && state@.plan.wallet.transactions@[i].hash_block == hash,
        asked matches Action::ReadTreeState { recover_until, .. } ==> !state@.plan.options.no_scan
            && recover_until == state@.progress.tip,
        asked is UseEmptyTreeState ==> state@.plan.options.no_scan,
        asked matches Action::AnnounceSeed { seed_fingerprint } ==> state@.progress.mnemonic_fp
            == Some(seed_fingerprint),
        asked matches Action::StoreLegacySeed { seed } ==> state@.plan.wallet.legacy_seed == Some(
            *seed,
        ),
        asked matches Action::EncryptKey { key } ==> state@.progress.key == Some(key),
        asked matches Action::ImportPubkeys { account, pubkeys } ==> state@.progress.legacy_account
            == Some(account) && (*pubkeys == state@.progress.pubkeys || *pubkeys
            == state@.plan.watch.pubkeys),
        asked matches Action::ImportScript { account, script } ==> state@.progress.legacy_account
            == Some(account) && exists|i: int|
            #![trigger state@.plan.scripts.parsed@[i]]
            0 <= i < state@.plan.scripts.parsed@.len() && state@.plan.scripts.parsed@[i] == *script,
        asked is ReadReceivers ==> exists|address: transparent::TransparentAddress| #[trigger]
            state@.progress.to_expose@.contains(address),
        asked matches Action::MarkExposed { marks } ==> *marks == state@.progress.marks && marks@.len()
            > 0,
        asked is ReadScanContext ==> state@.plan.options.buffer_wallet_transactions,
        asked matches Action::StoreTransactions { transactions } ==> *transactions
            == state@.progress.decoded,
        asked is Finish <==> state@.progress.stage == Stage::Finished,
{
    if asked is ReadReceivers {
        assert(!(state@.progress.to_expose@ =~= Set::<transparent::TransparentAddress>::empty()));
    }
    match state@.progress.stage {
        Stage::Block { tx } => {
            if tx < state@.plan.wallet.transactions@.len() {
                let transaction = state@.plan.wallet.transactions@[tx as int];
                transactions::lookup_is_for_unknown_blocks(
                    state@.progress.block_index@,
                    transaction,
                );
            }
        },
        Stage::Script { idx } => {
            if idx < state@.plan.scripts.parsed@.len() {
                let script = state@.plan.scripts.parsed@[idx as int];
                assert(state@.plan.scripts.parsed@[idx as int] == script);
            }
        },
        _ => {},
    }
}

/// An answer is taken exactly if it is of the kind that was asked for. There are three exceptions
/// besides: a migration does not get to a chain on which Sapling never activates, to a unified
/// account that does not come from the mnemonic, nor to a key that has no answer.
pub proof fn answers_fit_the_question(state: Migrator, asked: Action<'_>, event: Event, r: bool)
    requires
        call_ensures(Migrator::action, (&state,), asked),
        call_ensures(Migrator::accepts, (&state, &event), r),
    ensures
        asked is ReadAccountSources ==> (r <==> event is AccountSources),
        asked is StoreMnemonic ==> (r <==> event is MnemonicStored),
        asked is ReadTip ==> (r <==> event is Tip && state@.plan.upgrades.sapling is Some),
        asked is FindBlock ==> (r <==> event is BlockFound),
        asked is ReadTreeState ==> (r <==> event is TreeState),
        asked is UseEmptyTreeState ==> (r <==> event is Proceeded),
        asked is ImportHdAccount ==> (r <==> event is AccountImported),
        asked is AnnounceSeed ==> (r <==> event is Proceeded),
        asked is StoreLegacySeed ==> (r <==> event is LegacySeedStored),
        asked is FindAccount ==> (r <==> event is AccountFound),
        asked is StoreSaplingKey ==> (r <==> event is Proceeded),
        asked is ImportViewingKey ==> (r <==> event is Proceeded),
        asked is OpenEncryptor ==> (r <==> event is Proceeded),
        asked is EncryptKey ==> (r <==> event is KeyEncrypted),
        asked is StoreEncryptedKeys ==> (r <==> event is Proceeded),
        asked is ImportPubkeys ==> (r <==> event is Proceeded),
        asked is ImportScript ==> (r <==> event is ScriptImported),
        asked is ReadReceivers ==> (r <==> event is Receivers),
        asked is MarkExposed ==> (r <==> event is Proceeded),
        asked is ReadScanContext ==> (r <==> event is Proceeded),
        asked is StoreTransactions ==> (r <==> event is Proceeded),
        asked is Finish ==> !r,
        asked is Proceed ==> (r ==> event is Proceeded),
        asked is Proceed && event is Proceeded ==> match state@.progress.stage {
            Stage::ChainTip => r <==> state@.plan.upgrades.sapling is Some,
            Stage::Unified { idx } => r <==> (idx < state@.plan.wallet.unified_accounts@.len()
                ==> state@.progress.mnemonic_fp == Some(
                state@.plan.wallet.unified_accounts@[idx as int].seed_fingerprint,
            )),
            Stage::Key { idx } => r <==> (idx < state@.plan.wallet.keys@.len()
                && transparent::public_key_of(state@.plan.wallet.keys@[idx as int].pubkey@) is Ok
                ==> !transparent_keys::der_ends_in_version(
                state@.plan.wallet.keys@[idx as int].privkey@,
            )),
            _ => r,
        },
{
}

/// A migration stays as it is if it cannot go on from an answer, and goes on or fails if it can.
pub proof fn answers_that_are_taken_lead_on(state: Migrator, event: Event, taken: bool, r: Advance)
    requires
        call_ensures(Migrator::accepts, (&state, &event), taken),
        call_ensures(Migrator::advance, (state, event), r),
    ensures
        r is NotAwaited <==> !taken,
        r matches Advance::NotAwaited(same) ==> same@ == state@,
{
}

/// Where an account was not found, it is that account which is imported: one that was looked for by
/// its derivation under the identifier that it was looked for by, one that was looked for by its
/// viewing key by that key, and a Sapling key that was looked for by its seed with that seed.
pub proof fn what_was_not_found_is_imported(
    state: Migrator,
    asked: Action<'_>,
    next: Migrator,
    after: Action<'_>,
)
    requires
        call_ensures(Migrator::action, (&state,), asked),
        call_ensures(
            Migrator::advance,
            (state, Event::AccountFound(false)),
            Advance::Moved(next),
        ),
        call_ensures(Migrator::action, (&next,), after),
    ensures
        asked is FindAccount,
        after is ImportHdAccount || after is ImportViewingKey,
        after matches Action::ImportHdAccount { label, account_id, .. } ==> {
            &&& label == AccountLabel::Unified(account_id)
            &&& asked->lookup matches AccountLookup::ByDerivation(d) && d.account_index
                == account_id && d.legacy_address_index is None && state@.progress.mnemonic_fp
                == Some(d.seed_fingerprint)
        },
        after matches Action::ImportViewingKey { label, ufvk, purpose, .. } ==> {
            &&& asked->lookup matches AccountLookup::ByViewingKey(key) ==> *key == *ufvk
            &&& asked->lookup matches AccountLookup::ByDerivation(d) ==> {
                &&& d.account_index == 0x7fff_ffff
                &&& label matches AccountLabel::LegacySapling(i)
                    && state@.plan.wallet.sapling_keys@[i as int].seed_fp == Some(
                    d.seed_fingerprint,
                )
                &&& purpose is Spending
                &&& match purpose->derivation {
                    Some(origin) => d.legacy_address_index == origin.legacy_address_index,
                    None => d.legacy_address_index is None,
                }
            }
        },
{
}

/// Where an account was found, nothing is imported in its place.
pub proof fn what_was_found_is_not_imported(state: Migrator, next: Migrator, after: Action<'_>)
    requires
        call_ensures(Migrator::advance, (state, Event::AccountFound(true)), Advance::Moved(next)),
        call_ensures(Migrator::action, (&next,), after),
    ensures
        after is Proceed,
{
}

/// After the transparent keys the watch-only keys are imported, into the same account, if there are
/// any, whether or not there are redeem scripts; and if there are redeem scripts, the import of the
/// keys, be it of none, comes before theirs.
pub proof fn watch_only_keys_come_after_the_keys(
    state: Migrator,
    event: Event,
    next: Migrator,
    after: Action<'_>,
)
    requires
        state@.progress.stage == Stage::ImportKeys,
        call_ensures(Migrator::advance, (state, event), Advance::Moved(next)),
        call_ensures(Migrator::action, (&next,), after),
    ensures
        state@.plan.watch.pubkeys@.len() > 0 || state@.plan.scripts.parsed@.len() > 0
            ==> after == (Action::ImportPubkeys {
            account: state@.progress.legacy_account.unwrap(),
            pubkeys: &state@.plan.watch.pubkeys,
        }),
        state@.plan.watch.pubkeys@.len() == 0 && state@.plan.scripts.parsed@.len() == 0
            ==> after is Proceed && next@.progress.to_expose@ == state@.progress.to_expose@,
{
}

/// Whether a failure is reported with the sentence of the given name, about the given text.
pub open spec fn tells(error: MigrateError, id: Seq<char>, cause: Seq<char>) -> bool {
    error matches MigrateError::Wrapped(CommandError::Message(message)) && message@.id == id
        && message@.args.len() == 1 && message@.args[0] == (
        "err"@,
        crate::error::ArgModel::Text(cause),
    )
}

/// Whether the migration fails at this point with the given failure.
pub open spec fn fails(state: Migrator, event: Event, e: MigrateError) -> bool {
    call_ensures(Migrator::advance, (state, event), Advance::Failed(e))
}

/// Whether the migration goes on at this point.
pub open spec fn goes_on(state: Migrator, event: Event) -> bool {
    exists|next: Migrator| #[trigger]
        call_ensures(Migrator::advance, (state, event), Advance::Moved(next))
}

/// The zcashd wallets that were migrated before are known by the accounts of the wallet database that
/// come from the mnemonic of one, and the mnemonic of the wallet is read if it has one.
pub proof fn wallets_before_are_those_of_the_database(
    state: Migrator,
    sources: Vec<AccountSource>,
    next: Migrator,
    fp: SeedFingerprint,
)
    requires
        call_ensures(
            Migrator::advance,
            (state, Event::AccountSources(sources)),
            Advance::Moved(next),
        ),
    ensures
        next@.progress.existing@.contains(fp) <==> exists|i: int|
            #![trigger sources@[i]]
            0 <= i < sources@.len() && sources@[i] is Derived && sources@[i]->seed_fingerprint == fp
                && sources@[i]->key_source is Some && sources@[i]->key_source.unwrap()@
                == "zcashd_mnemonic"@,
        next@.progress.mnemonic is Some <==> state@.plan.wallet.mnemonic@.len() > 0,
        next@.progress.mnemonic matches Some(m) ==> mnemonic::mnemonic_of(
            state@.plan.wallet.mnemonic@,
        ) == Ok::<Seq<char>, bip0039::Error>(m@),
{
    accounts::found_seeds_are_of_zcashd_accounts(sources@, fp);
}

/// A mnemonic that cannot be read ends the migration, and one that is not there does not.
pub proof fn mnemonics_have_to_be_readable(state: Migrator, event: Event, e: MigrateError)
    requires
        state@.progress.stage == Stage::Accounts,
    ensures
        fails(state, event, e) ==> state@.plan.wallet.mnemonic@.len() > 0 && (
        mnemonic::mnemonic_of(state@.plan.wallet.mnemonic@) matches Err(cause) && e
            == MigrateError::MnemonicInvalid(cause)),
        goes_on(state, event) ==> state@.plan.wallet.mnemonic@.len() == 0 || mnemonic::mnemonic_of(
            state@.plan.wallet.mnemonic@,
        ) is Ok,
{
}

/// Where zcashd wallets were migrated before, the migration goes on only if several are allowed,
/// and if none of them has the seed of the mnemonic.
pub proof fn other_wallets_have_to_be_allowed(
    state: Migrator,
    event: Event,
    e: MigrateError,
    seed: Seq<u8>,
)
    requires
        state@.progress.stage == Stage::StoreMnemonic,
        state@.progress.mnemonic matches Some(m) && seed == fingerprint::fingerprint_of(
            mnemonic::mnemonic_seed(m@),
        ),
    ensures
        fails(state, event, e) ==> state@.progress.existing@.len() > 0,
        fails(state, event, e) && !state@.plan.options.allow_multiple_wallet_imports
            ==> e is MultiImportDisabled,
        fails(state, event, e) && state@.plan.options.allow_multiple_wallet_imports
            ==> e is DuplicateImport && e->DuplicateImport_0@ == seed && exists|i: int|
            0 <= i < state@.progress.existing@.len() && (#[trigger] state@.progress.existing@[i])@
                == seed,
        goes_on(state, event) && state@.progress.existing@.len() > 0
            ==> state@.plan.options.allow_multiple_wallet_imports && forall|i: int|
            0 <= i < state@.progress.existing@.len() ==> (#[trigger] state@.progress.existing@[i])@
                != seed,
{
    let existing = state@.progress.existing@;
    if goes_on(state, event) && existing.len() > 0 {
        assert forall|i: int| 0 <= i < existing.len() implies (#[trigger] existing[i])@ != seed by {
            if existing[i]@ == seed {
                assert(crate::accounts::is_among(existing, seed));
            }
        }
    }
}

/// A wallet without a mnemonic goes on if no other was migrated before, or if several are allowed.
pub proof fn wallets_without_a_mnemonic_need_no_seed(state: Migrator, event: Event, e: MigrateError)
    requires
        state@.progress.stage == Stage::StoreMnemonic,
        state@.progress.mnemonic is None,
    ensures
        fails(state, event, e) ==> state@.progress.existing@.len() > 0
            && !state@.plan.options.allow_multiple_wallet_imports && e is MultiImportDisabled,
        goes_on(state, event) ==> state@.progress.existing@.len() == 0
            || state@.plan.options.allow_multiple_wallet_imports,
{
}

/// A tree state that is missing ends the migration, which tells the height that was asked for.
pub proof fn tree_states_have_to_be_there(
    state: Migrator,
    asked: Action<'_>,
    event: Event,
    e: MigrateError,
)
    requires
        state@.progress.stage == Stage::Birthday,
        call_ensures(Migrator::action, (&state,), asked),
    ensures
        fails(state, event, e) ==> event == Event::TreeState(None) && (
        asked matches Action::ReadTreeState { height, .. } && tells(
            e,
            "err-migrate-wallet-invalid-chain-data"@,
            "missing tree state for height "@ + text::decimal(height as nat),
        )),
        goes_on(state, event) ==> event != Event::TreeState(None),
{
}

/// A mnemonic is derived only from a legacy seed of 32 bytes, and the migration ends where it has
/// to be derived from another.
pub proof fn derived_mnemonics_need_32_bytes(
    state: Migrator,
    event: Event,
    e: MigrateError,
    seed: Vec<u8>,
)
    requires
        state@.progress.stage == Stage::LegacySeed,
        state@.plan.wallet.legacy_seed == Some(seed),
    ensures
        fails(state, event, e) ==> seed@.len() != 32 && state@.progress.mnemonic is None && (
        e matches MigrateError::Wrapped(CommandError::Message(message)) && message@.id
            == "err-failed-seed-fingerprinting"@ && message@.args.len() == 0),
        goes_on(state, event) ==> seed@.len() == 32 || state@.progress.mnemonic is Some || (
        state@.plan.wallet.keys@.len() == 0 && state@.plan.watch.pubkeys@.len() == 0
            && state@.plan.scripts.parsed@.len() == 0),
{
}

/// The migration ends with the first unified account whose identifier has more than 31 bits.
pub proof fn account_identifiers_have_to_be_valid(
    state: Migrator,
    event: Event,
    e: MigrateError,
    idx: usize,
)
    requires
        state@.progress.stage == (Stage::Unified { idx }),
    ensures
        fails(state, event, e) ==> idx < state@.plan.wallet.unified_accounts@.len()
            && state@.plan.wallet.unified_accounts@[idx as int].zip32_account_id >= 0x8000_0000 && e
            == MigrateError::AccountIdInvalid(
            state@.plan.wallet.unified_accounts@[idx as int].zip32_account_id,
        ),
        goes_on(state, event) && idx < state@.plan.wallet.unified_accounts@.len()
            ==> state@.plan.wallet.unified_accounts@[idx as int].zip32_account_id < 0x8000_0000,
{
}

/// The migration ends with the first Sapling spending key that has no viewing key, or whose path
/// cannot be read.
pub proof fn sapling_keys_have_to_be_usable(
    state: Migrator,
    event: Event,
    e: MigrateError,
    idx: usize,
)
    requires
        state@.progress.stage == (Stage::Sapling { idx }),
    ensures
        fails(state, event, e) ==> idx < state@.plan.wallet.sapling_keys@.len() && {
            let key = state@.plan.wallet.sapling_keys@[idx as int];
            match sapling::unified_key_of(sapling::full_viewing_key_of(key.extsk)) {
                Err(cause) => e == MigrateError::KeyDerivation(cause),
                Ok(_) => key.hd_keypath matches Some(path) && (sapling::hd_path(
                    state@.plan.network,
                    path@,
                ) matches Err(cause) && e == MigrateError::HdPath(cause)),
            }
        },
        goes_on(state, event) && idx < state@.plan.wallet.sapling_keys@.len() ==> {
            let key = state@.plan.wallet.sapling_keys@[idx as int];
            &&& sapling::unified_key_of(sapling::full_viewing_key_of(key.extsk)) is Ok
            &&& key.hd_keypath matches Some(path) ==> sapling::hd_path(
                state@.plan.network,
                path@,
            ) is Ok
        },
{
}

/// The migration ends with the first Sapling viewing key that no unified viewing key can be made
/// of.
pub proof fn viewing_keys_have_to_be_usable(
    state: Migrator,
    event: Event,
    e: MigrateError,
    idx: usize,
)
    requires
        state@.progress.stage == (Stage::Viewing { idx }),
    ensures
        fails(state, event, e) ==> idx < state@.plan.wallet.sapling_viewing_keys@.len() && (
        sapling::unified_key_of(
            state@.plan.wallet.sapling_viewing_keys@[idx as int],
        ) matches Err(cause) && e == MigrateError::KeyDerivation(cause)),
        goes_on(state, event) && idx < state@.plan.wallet.sapling_viewing_keys@.len()
            ==> sapling::unified_key_of(
            state@.plan.wallet.sapling_viewing_keys@[idx as int],
        ) is Ok,
{
}

/// The migration ends with the first transparent key whose public key cannot be read, or whose
/// private key cannot be decoded.
pub proof fn transparent_keys_have_to_be_usable(
    state: Migrator,
    event: Event,
    e: MigrateError,
    idx: usize,
)
    requires
        state@.progress.stage == (Stage::Key { idx }),
    ensures
        fails(state, event, e) ==> idx < state@.plan.wallet.keys@.len() && {
            let key = state@.plan.wallet.keys@[idx as int];
            match transparent::public_key_of(key.pubkey@) {
                Err(cause) => e == MigrateError::KeyError(cause),
                Ok(_) => transparent_keys::der_secret(key.privkey@) is None && tells(
                    e,
                    "err-migrate-wallet-key-decoding"@,
                    "failed DER decoding"@,
                ),
            }
        },
        goes_on(state, event) && idx < state@.plan.wallet.keys@.len() ==> {
            let key = state@.plan.wallet.keys@[idx as int];
            &&& transparent::public_key_of(key.pubkey@) is Ok
            &&& transparent_keys::der_secret(key.privkey@) is Some
        },
{
}

/// The migration ends once the transparent keys are stored if there is no account to import them
/// into.
pub proof fn transparent_keys_need_an_account(state: Migrator, event: Event, e: MigrateError)
    requires
        state@.progress.stage == Stage::StoreKeys,
    ensures
        fails(state, event, e) ==> state@.progress.legacy_account is None && e is SeedNotAvailable,
        goes_on(state, event) ==> state@.progress.legacy_account is Some,
{
}

/// Without a chain, the migration ends with the first transaction that cannot be read.
pub proof fn outputs_have_to_be_readable(state: Migrator, event: Event, e: MigrateError)
    requires
        state@.progress.stage == Stage::Outputs,
    ensures
        fails(state, event, e) ==> state@.plan.options.no_scan && exists|i: int|
            #![trigger state@.plan.wallet.transactions@[i]]
            0 <= i < state@.plan.wallet.transactions@.len() && (transactions::parsed_transaction(
                state@.plan.wallet.transactions@[i].raw@,
                0,
            ) matches Err(cause) && e == MigrateError::Io(cause)) && forall|j: int|
                0 <= j < i ==> transactions::parsed_transaction(
                    (#[trigger] state@.plan.wallet.transactions@[j]).raw@,
                    0,
                ) is Ok,
        goes_on(state, event) && state@.plan.options.no_scan ==> forall|i: int|
            0 <= i < state@.plan.wallet.transactions@.len() ==> transactions::parsed_transaction(
                (#[trigger] state@.plan.wallet.transactions@[i]).raw@,
                0,
            ) is Ok,
{
    let txs = state@.plan.wallet.transactions@;
    if fails(state, event, e) {
        let i = choose|i: int| #[trigger] transactions::unreadable_at(txs, i, e);
        assert(!transactions::is_readable(txs[i]));
        assert forall|j: int| 0 <= j < i implies transactions::parsed_transaction(
            (#[trigger] txs[j]).raw@,
            0,
        ) is Ok by {
            assert(transactions::is_readable(txs[j]));
        }
    }
    if goes_on(state, event) && state@.plan.options.no_scan {
        assert forall|i: int| 0 <= i < txs.len() implies transactions::parsed_transaction(
            (#[trigger] txs[i]).raw@,
            0,
        ) is Ok by {
            assert(transactions::is_readable(txs[i]));
        }
    }
}

/// The transactions are read only if they are to be stored. Then the migration ends with the first
/// that cannot be read under the rules that are its own.
pub proof fn stored_transactions_have_to_be_readable(
    state: Migrator,
    event: Event,
    e: MigrateError,
) -> (i: int)
    requires
        state@.progress.stage == Stage::Buffer,
        fails(state, event, e),
    ensures
        state@.plan.options.buffer_wallet_transactions,
        0 <= i < state@.plan.wallet.transactions@.len(),
        e is Io || (e matches MigrateError::Wrapped(CommandError::Message(message)) && message@.id
            == "err-migrate-wallet-all-unmined"@ && message@.args.len() == 0),
        state@.progress.heights@[i] matches Some(height) ==> (transactions::parsed_transaction(
            state@.plan.wallet.transactions@[i].raw@,
            crate::consensus::branch_at(state@.plan.upgrades, height),
        ) matches Err(cause) && e == MigrateError::Io(cause)),
        !(e is Io) ==> forall|k: int|
            0 <= k < state@.progress.heights@.len() ==> (#[trigger] state@.progress.heights@[k])
                is None,
{
    transactions::decoding_fails_at_the_first(
        state@.plan.wallet.transactions@,
        state@.progress.heights@,
        state@.plan.upgrades,
        e,
    )
}

/// Transactions that were all mined, and that can all be read under the rules of their heights, do
/// not end the migration.
pub proof fn readable_transactions_are_stored(state: Migrator, event: Event, e: MigrateError)
    requires
        state@.progress.stage == Stage::Buffer,
        forall|i: int|
            0 <= i < state@.plan.wallet.transactions@.len() ==> {
                &&& (#[trigger] state@.progress.heights@[i]) is Some
                &&& transactions::parsed_transaction(
                    state@.plan.wallet.transactions@[i].raw@,
                    crate::consensus::branch_at(
                        state@.plan.upgrades,
                        state@.progress.heights@[i].unwrap(),
                    ),
                ) is Ok
            },
    ensures
        !fails(state, event, e),
{
    if fails(state, event, e) {
        let i = stored_transactions_have_to_be_readable(state, event, e);
        assert(state@.progress.heights@[i] is Some);
    }
}

/// Nothing else ends a migration.
pub proof fn migrations_end_for_no_other_reason(state: Migrator, event: Event, e: MigrateError)
    requires
        fails(state, event, e),
    ensures
        match state@.progress.stage {
            Stage::Accounts => true,
            Stage::StoreMnemonic => true,
            Stage::Birthday => true,
            Stage::LegacySeed => state@.plan.wallet.legacy_seed is Some,
            Stage::Unified { .. } => true,
            Stage::Sapling { .. } => true,
            Stage::Viewing { .. } => true,
            Stage::Key { .. } => true,
            Stage::StoreKeys => true,
            Stage::Outputs => true,
            Stage::Buffer => true,
            _ => false,
        },
{
}

} // verus!
