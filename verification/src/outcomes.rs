//! What every complete migration has done for each thing that the wallet holds.

use crate::accounts::{AccountLabel, AccountUuid, ZCASHD_LEGACY_SOURCE, ZCASHD_MNEMONIC_SOURCE};
use crate::action::{AccountPurpose, Action, Event, Stage};
use crate::exposure;
use crate::migration;
use crate::migration::Migration;
use crate::migrator::Migrator;
use crate::mnemonic;
use crate::mnemonic::Mnemonic;
use crate::run;
use crate::run::Course;
use crate::sapling;
use crate::sapling::{AccountLookup, Derivation};
use crate::summary::MigrationSummary;
use crate::transactions;
use crate::transactions::DecodedTransaction;
use crate::transparent;
use crate::transparent::{PublicKey, TransparentAddress};
use crate::transparent_keys;
use crate::transparent_keys::TransparentKey;
use crate::watchonly;
use vstd::prelude::*;

verus! {

/// The birthday that is sought is that of the wallet, on the chain or off it, and the birthday of
/// the accounts is the height after that of the tree state that was given for it.
pub proof fn birthday_is_sought_once(course: Course) -> (k: int)
    requires
        course.is_complete(),
    ensures
        0 <= k < course.events.len(),
        course.options.no_scan ==> run::asks(
            course.states[k],
            Action::UseEmptyTreeState {
                height: transactions::birthday_off_chain(
                    course.wallet.transactions@,
                    course.upgrades.sapling.unwrap(),
                ),
            },
        ) && course.events[k] is Proceeded,
        !course.options.no_scan ==> run::asks(
            course.states[k],
            Action::ReadTreeState {
                height: transactions::height_less(
                    transactions::birthday_on_chain(
                        course.at(k).progress.heights@,
                        course.at(k).progress.tip,
                        course.upgrades.sapling.unwrap(),
                    ),
                    1,
                ),
                recover_until: course.at(k).progress.tip,
            },
        ) && course.events[k] is TreeState && course.events[k]->TreeState_0 is Some,
        forall|j: int|
            k < j < course.states.len() ==> (#[trigger] course.at(j)).progress.birthday
                == transactions::next_height(
                if course.options.no_scan {
                    transactions::birthday_off_chain(
                        course.wallet.transactions@,
                        course.upgrades.sapling.unwrap(),
                    )
                } else {
                    course.events[k]->TreeState_0.unwrap()
                },
            ),
{
    let k = run::reaches_birthday(course);
    run::course_facts(course, k);
    run::asks_what_is_pending(course.states[k]);
    assert forall|j: int| k < j < course.states.len() implies (#[trigger] course.at(
        j,
    )).progress.birthday == course.at(k + 1).progress.birthday by {
        run::progress_is_kept(course, k + 1, j);
    }
    k
}

/// Whether the wallet has something that the legacy account has to hold.
pub open spec fn has_transparent(course: Course) -> bool {
    ||| course.wallet.keys@.len() > 0
    ||| course.at(0).plan.watch.pubkeys@.len() > 0
    ||| course.at(0).plan.scripts.parsed@.len() > 0
}

/// A wallet with a mnemonic and with something transparent to hold gets the legacy account of its
/// mnemonic, under the identifier of that account, and the operator is told the fingerprint of the
/// seed.
pub proof fn legacy_account_is_of_the_mnemonic(course: Course) -> (k: int)
    requires
        course.is_complete(),
        course.wallet.mnemonic@.len() > 0,
        has_transparent(course),
    ensures
        0 <= k < course.events.len(),
        exists|m: Mnemonic| #[trigger]
            run::asks(
                course.states[k],
                Action::ImportHdAccount {
                    label: AccountLabel::LegacyTransparent,
                    mnemonic: &m,
                    account_id: 0x7FFF_FFFF,
                    key_source: ZCASHD_MNEMONIC_SOURCE,
                },
            ) && m@ == mnemonic::mnemonic_of(course.wallet.mnemonic@)->Ok_0,
        course.events[k] is AccountImported,
        course.events[1] is MnemonicStored,
        run::asks(
            course.states[k + 1],
            Action::AnnounceSeed { seed_fingerprint: course.events[1]->MnemonicStored_0 },
        ),
        forall|j: int|
            k < j < course.states.len() ==> (#[trigger] course.at(j)).progress.legacy_account
                == Some(course.events[k]->AccountImported_0),
{
    let k = run::reaches_legacy_account(course);
    run::course_facts(course, k);
    run::course_facts(course, k + 1);
    run::accounts_and_mnemonic_come_first(course);
    run::asks_what_is_pending(course.states[k]);
    run::asks_what_is_pending(course.states[k + 1]);
    comes_after_the_start(course, k);
    run::mnemonic_fingerprint_is_as_told(course, k);
    run::mnemonic_fingerprint_is_as_told(course, k + 1);
    let m = course.at(k).progress.mnemonic.unwrap();
    assert(run::asks(
        course.states[k],
        Action::ImportHdAccount {
            label: AccountLabel::LegacyTransparent,
            mnemonic: &m,
            account_id: 0x7FFF_FFFF,
            key_source: ZCASHD_MNEMONIC_SOURCE,
        },
    ));
    assert forall|j: int| k < j < course.states.len() implies (#[trigger] course.at(
        j,
    )).progress.legacy_account == Some(course.events[k]->AccountImported_0) by {
        run::progress_is_kept(course, k + 1, j);
    }
    k
}

/// A stage beyond the first two comes after the first two points of the course.
proof fn comes_after_the_start(course: Course, k: int)
    requires
        course.is_complete(),
        0 <= k < course.states.len(),
        course.stage(k).phase() >= 2,
    ensures
        k >= 2,
{
    run::accounts_and_mnemonic_come_first(course);
    run::course_facts(course, 0);
}

/// The legacy seed of the wallet is stored, if it has one, and its fingerprint is the one that was
/// told.
pub proof fn legacy_seed_is_stored(course: Course) -> (k: int)
    requires
        course.is_complete(),
    ensures
        0 <= k < course.events.len(),
        course.wallet.legacy_seed matches Some(seed) ==> run::asks(
            course.states[k],
            Action::StoreLegacySeed { seed: &seed },
        ) && course.events[k] is LegacySeedStored,
        course.wallet.legacy_seed is None ==> run::asks(course.states[k], Action::Proceed),
        forall|j: int|
            k < j < course.states.len() ==> (#[trigger] course.at(j)).progress.legacy_fp == match (
            course.events[k]) {
                Event::LegacySeedStored(fp) => Some(fp),
                _ => None,
            },
{
    let k = run::reaches_legacy_seed(course);
    run::course_facts(course, k);
    run::asks_what_is_pending(course.states[k]);
    assert forall|j: int| k < j < course.states.len() implies (#[trigger] course.at(
        j,
    )).progress.legacy_fp == course.at(k + 1).progress.legacy_fp by {
        run::progress_is_kept(course, k + 1, j);
    }
    k
}

/// A wallet with something transparent to hold and a legacy seed, but no mnemonic, gets the
/// mnemonic that zcashd would have derived from the seed: it is stored, and the legacy account is
/// imported from it. The seed has to be of 32 bytes.
pub proof fn legacy_account_is_of_the_derived_mnemonic(course: Course) -> (k: int)
    requires
        course.is_complete(),
        course.wallet.mnemonic@.len() == 0,
        course.wallet.legacy_seed is Some,
        has_transparent(course),
    ensures
        0 <= k,
        k + 2 < course.events.len(),
        course.wallet.legacy_seed.unwrap()@.len() == 32,
        exists|m: Mnemonic|
            #![trigger m@]
            {
                &&& m@ == mnemonic::derived_phrase(course.wallet.legacy_seed.unwrap()@)
                &&& run::asks(course.states[k + 1], Action::StoreMnemonic { mnemonic: &m })
                &&& run::asks(
                    course.states[k + 2],
                    Action::ImportHdAccount {
                        label: AccountLabel::LegacyTransparent,
                        mnemonic: &m,
                        account_id: 0x7FFF_FFFF,
                        key_source: ZCASHD_MNEMONIC_SOURCE,
                    },
                )
            },
        course.events[k + 2] is AccountImported,
        forall|j: int|
            k + 2 < j < course.states.len() ==> (#[trigger] course.at(j)).progress.legacy_account
                == Some(course.events[k + 2]->AccountImported_0),
{
    let k = run::reaches_legacy_seed(course);
    run::course_facts(course, k);
    comes_after_the_start(course, k);
    run::mnemonic_fingerprint_is_as_told(course, k);
    run::ends_finished(course);
    run::course_facts(course, k + 1);
    run::course_facts(course, k + 2);
    run::asks_what_is_pending(course.states[k + 1]);
    run::asks_what_is_pending(course.states[k + 2]);
    let m = course.at(k + 1).progress.derived.unwrap();
    assert(m@ == mnemonic::derived_phrase(course.wallet.legacy_seed.unwrap()@));
    assert forall|j: int| k + 2 < j < course.states.len() implies (#[trigger] course.at(
        j,
    )).progress.legacy_account == Some(course.events[k + 2]->AccountImported_0) by {
        run::progress_is_kept(course, k + 3, j);
    }
    k
}

/// A complete migration had something transparent to hold, and a seed to hold it under.
pub proof fn complete_migrations_had_a_legacy_account(course: Course)
    requires
        course.is_complete(),
    ensures
        has_transparent(course),
        course.wallet.mnemonic@.len() > 0 || course.wallet.legacy_seed is Some,
{
    let k = run::reaches_import_keys(course);
    run::course_facts(course, k);
}

/// Every unified account is looked up by the seed and the identifier that the wallet gives it, and
/// is imported under that very identifier, from the mnemonic of the wallet, exactly if it was not
/// found. Its seed is that of the mnemonic that was stored.
pub proof fn unified_accounts_are_imported(course: Course, idx: usize) -> (k: int)
    requires
        course.is_complete(),
        idx < course.wallet.unified_accounts@.len(),
    ensures
        0 <= k < course.events.len(),
        course.wallet.unified_accounts@[idx as int].zip32_account_id < 0x8000_0000,
        course.events[1] == Event::MnemonicStored(
            course.wallet.unified_accounts@[idx as int].seed_fingerprint,
        ),
        run::asks(
            course.states[k],
            Action::FindAccount {
                lookup: AccountLookup::ByDerivation(
                    Derivation {
                        seed_fingerprint: course.wallet.unified_accounts@[idx as int].seed_fingerprint,
                        account_index: course.wallet.unified_accounts@[idx as int].zip32_account_id,
                        legacy_address_index: None,
                    },
                ),
            },
        ),
        course.events[k] is AccountFound,
        course.events[k]->AccountFound_0 ==> run::asks(course.states[k + 1], Action::Proceed),
        !course.events[k]->AccountFound_0 ==> exists|m: Mnemonic| #[trigger]
            run::asks(
                course.states[k + 1],
                Action::ImportHdAccount {
                    label: AccountLabel::Unified(
                        course.wallet.unified_accounts@[idx as int].zip32_account_id,
                    ),
                    mnemonic: &m,
                    account_id: course.wallet.unified_accounts@[idx as int].zip32_account_id,
                    key_source: ZCASHD_MNEMONIC_SOURCE,
                },
            ) && m@ == mnemonic::mnemonic_of(course.wallet.mnemonic@)->Ok_0,
{
    let k = run::reaches_unified(course, idx);
    run::course_facts(course, k);
    run::course_facts(course, k + 1);
    comes_after_the_start(course, k);
    run::accounts_and_mnemonic_come_first(course);
    run::mnemonic_fingerprint_is_as_told(course, k);
    run::mnemonic_fingerprint_is_as_told(course, k + 1);
    run::asks_what_is_pending(course.states[k]);
    run::asks_what_is_pending(course.states[k + 1]);
    if !course.events[k]->AccountFound_0 {
        let m = course.at(k + 1).progress.mnemonic.unwrap();
        assert(run::asks(
            course.states[k + 1],
            Action::ImportHdAccount {
                label: AccountLabel::Unified(
                    course.wallet.unified_accounts@[idx as int].zip32_account_id,
                ),
                mnemonic: &m,
                account_id: course.wallet.unified_accounts@[idx as int].zip32_account_id,
                key_source: ZCASHD_MNEMONIC_SOURCE,
            },
        ));
    }
    k
}

/// The fingerprint of the legacy seed, at a point of the course after the seed was dealt with, is
/// the one that was told at some point, and is that of every point at which it was told.
pub proof fn legacy_fingerprint_is_as_told(course: Course, j: int)
    requires
        course.is_complete(),
        0 <= j < course.states.len(),
        course.stage(j).phase() >= 8,
    ensures
        forall|i: int|
            0 <= i < course.events.len() && (#[trigger] course.events[i]) is LegacySeedStored
                ==> course.at(j).progress.legacy_fp == Some(course.events[i]->LegacySeedStored_0),
        course.at(j).progress.legacy_fp matches Some(fp) ==> course.events.contains(
            Event::LegacySeedStored(fp),
        ),
        course.at(j).progress.legacy_fp is Some <==> course.wallet.legacy_seed is Some,
{
    let k = legacy_seed_is_stored(course);
    let k2 = run::reaches_legacy_seed(course);
    run::course_facts(course, j);
    assert(course.stage(k2) == Stage::LegacySeed);
    if j <= k2 {
        run::progress_is_kept(course, j, k2);
    }
    run::course_facts(course, k2);
    run::progress_is_kept(course, k2 + 1, j);
    if course.at(j).progress.legacy_fp is Some {
        assert(course.events[k2] == Event::LegacySeedStored(course.at(j).progress.legacy_fp.unwrap()));
    }
    assert forall|i: int|
        0 <= i < course.events.len() && (#[trigger] course.events[i]) is LegacySeedStored implies
        course.at(j).progress.legacy_fp == Some(course.events[i]->LegacySeedStored_0) by {
        run::course_facts(course, i);
        if i < k2 {
            run::course_goes_forward(course, i, k2);
        } else if k2 < i {
            run::course_goes_forward(course, k2, i);
        }
    }
}

/// A Sapling key whose seed is that of the mnemonic, or that of the legacy seed, as these were
/// told, is not stored by itself, whichever other seed the wallet has. Every other key is: one
/// whose seed is neither of the two, and one that no seed is known for.
pub proof fn standalone_keys_are_stored(course: Course, idx: usize) -> (k: int)
    requires
        course.is_complete(),
        idx < course.wallet.sapling_keys@.len(),
    ensures
        0 <= k < course.events.len(),
        course.stage(k) == (Stage::SaplingStandalone { idx }),
        course.wallet.sapling_keys@[idx as int].seed_fp matches Some(fp) ==> {
            &&& course.events[1] == Event::MnemonicStored(fp) ==> run::asks(
                course.states[k],
                Action::Proceed,
            )
            &&& course.events.contains(Event::LegacySeedStored(fp)) ==> run::asks(
                course.states[k],
                Action::Proceed,
            )
            &&& course.events[1] != Event::MnemonicStored(fp) && !course.events.contains(
                Event::LegacySeedStored(fp),
            ) ==> run::asks(
                course.states[k],
                Action::StoreSaplingKey { extsk: &course.wallet.sapling_keys@[idx as int].extsk },
            )
        },
        course.wallet.sapling_keys@[idx as int].seed_fp is None ==> run::asks(
            course.states[k],
            Action::StoreSaplingKey { extsk: &course.wallet.sapling_keys@[idx as int].extsk },
        ),
{
    let k = run::reaches_sapling(course, idx);
    run::course_facts(course, k);
    run::asks_what_is_pending(course.states[k]);
    comes_after_the_start(course, k);
    run::mnemonic_fingerprint_is_as_told(course, k);
    legacy_fingerprint_is_as_told(course, k);
    let key = course.wallet.sapling_keys@[idx as int];
    if key.seed_fp is Some {
        let told = Event::LegacySeedStored(key.seed_fp.unwrap());
        if course.events.contains(told) {
            let i = course.events.index_of(told);
            assert(course.events[i] is LegacySeedStored);
        }
    }
    k
}

/// A Sapling key is looked up under the legacy account of its seed, with the address index of its
/// path if that has one, and by its viewing key if no seed is known for it. The account is imported
/// exactly if it was not found, with the viewing key of the key, and with its derivation.
pub proof fn sapling_keys_are_imported(course: Course, idx: usize) -> (k: int)
    requires
        course.is_complete(),
        idx < course.wallet.sapling_keys@.len(),
    ensures
        0 <= k < course.events.len(),
        sapling::account_of(course.wallet.sapling_keys@[idx as int], course.network) is Ok,
        ({
            let key = course.wallet.sapling_keys@[idx as int];
            let ufvk = sapling::unified_key_of(sapling::full_viewing_key_of(key.extsk))->Ok_0;
            let derivation = sapling::account_of(key, course.network)->Ok_0.derivation;
            &&& sapling::unified_key_of(sapling::full_viewing_key_of(key.extsk)) is Ok
            &&& key.seed_fp is None ==> run::asks(
                course.states[k],
                Action::FindAccount { lookup: AccountLookup::ByViewingKey(&ufvk) },
            )
            &&& key.seed_fp matches Some(fp) ==> run::asks(
                course.states[k],
                Action::FindAccount {
                    lookup: AccountLookup::ByDerivation(
                        Derivation {
                            seed_fingerprint: fp,
                            account_index: 0x7FFF_FFFF,
                            legacy_address_index: match derivation {
                                Some(d) => d.legacy_address_index,
                                None => None,
                            },
                        },
                    ),
                },
            )
            &&& course.events[k] is AccountFound
            &&& course.events[k]->AccountFound_0 ==> run::asks(
                course.states[k + 1],
                Action::Proceed,
            )
            &&& !course.events[k]->AccountFound_0 ==> run::asks(
                course.states[k + 1],
                Action::ImportViewingKey {
                    label: AccountLabel::LegacySapling(idx),
                    ufvk: &ufvk,
                    purpose: AccountPurpose::Spending { derivation },
                    key_source: ZCASHD_LEGACY_SOURCE,
                },
            )
        }),
{
    let before = run::reaches_sapling(course, idx);
    run::course_facts(course, before);
    let k = before + 1;
    run::ends_finished(course);
    run::course_facts(course, k);
    run::course_facts(course, k + 1);
    run::asks_what_is_pending(course.states[k]);
    run::asks_what_is_pending(course.states[k + 1]);
    k
}

/// A Sapling viewing key is looked up by the unified viewing key that is made of it, and imported
/// as an account that can only view, exactly if it was not found.
pub proof fn viewing_keys_are_imported(course: Course, idx: usize) -> (k: int)
    requires
        course.is_complete(),
        idx < course.wallet.sapling_viewing_keys@.len(),
    ensures
        0 <= k < course.events.len(),
        ({
            let made = sapling::unified_key_of(course.wallet.sapling_viewing_keys@[idx as int]);
            &&& made is Ok
            &&& run::asks(
                course.states[k],
                Action::FindAccount { lookup: AccountLookup::ByViewingKey(&made->Ok_0) },
            )
            &&& course.events[k] is AccountFound
            &&& course.events[k]->AccountFound_0 ==> run::asks(
                course.states[k + 1],
                Action::Proceed,
            )
            &&& !course.events[k]->AccountFound_0 ==> run::asks(
                course.states[k + 1],
                Action::ImportViewingKey {
                    label: AccountLabel::ViewOnlySapling(idx),
                    ufvk: &made->Ok_0,
                    purpose: AccountPurpose::ViewOnly,
                    key_source: ZCASHD_LEGACY_SOURCE,
                },
            )
        }),
{
    let k = run::reaches_viewing(course, idx);
    run::course_facts(course, k);
    run::course_facts(course, k + 1);
    run::asks_what_is_pending(course.states[k]);
    run::asks_what_is_pending(course.states[k + 1]);
    k
}

/// The encryptor is opened before any transparent key is encrypted.
pub proof fn encryptor_is_opened_first(course: Course) -> (k: int)
    requires
        course.is_complete(),
    ensures
        0 <= k < course.events.len(),
        run::asks(course.states[k], Action::OpenEncryptor),
        forall|i: int|
            0 <= i < course.states.len() && (#[trigger] course.stage(i)) is KeyEncrypt ==> k < i,
{
    let k = run::reaches_encryptor(course);
    run::course_facts(course, k);
    run::asks_what_is_pending(course.states[k]);
    assert forall|i: int|
        0 <= i < course.states.len() && (#[trigger] course.stage(i)) is KeyEncrypt implies k < i by {
        if i < k {
            run::course_goes_forward(course, i, k);
        }
    }
    k
}

/// Every transparent key is encrypted: the secret that its private key encodes, with the flag of
/// the form that its public key has. Its public key and its private key have to be readable.
pub proof fn transparent_keys_are_encrypted(course: Course, idx: usize) -> (k: int)
    requires
        course.is_complete(),
        idx < course.wallet.keys@.len(),
    ensures
        0 <= k < course.events.len(),
        course.stage(k) == (Stage::KeyEncrypt { idx }),
        transparent::public_key_of(course.wallet.keys@[idx as int].pubkey@) is Ok,
        transparent_keys::der_secret(course.wallet.keys@[idx as int].privkey@) is Some,
        exists|key: TransparentKey| #[trigger]
            run::asks(course.states[k], Action::EncryptKey { key }) && key.secret@
                == transparent_keys::der_secret(
                course.wallet.keys@[idx as int].privkey@,
            ).unwrap() && key.compressed == (course.wallet.keys@[idx as int].pubkey@.len() == 33),
        course.events[k] is KeyEncrypted,
{
    let before = run::reaches_key(course, idx);
    run::course_facts(course, before);
    run::ends_finished(course);
    let k = before + 1;
    run::course_facts(course, k);
    run::asks_what_is_pending(course.states[k]);
    let key = course.at(k).progress.key.unwrap();
    assert(run::asks(course.states[k], Action::EncryptKey { key }));
    k
}

/// The public key that was told of a transparent key keeps its place.
proof fn told_pubkey_stays(course: Course, k: int, j: int, idx: usize)
    requires
        course.is_course(),
        0 <= k < j < course.states.len(),
        course.stage(k) == (Stage::KeyEncrypt { idx }),
    ensures
        course.events[k] is KeyEncrypted,
        course.at(j).progress.pubkeys@.len() > idx,
        course.at(j).progress.pubkeys@[idx as int] == course.events[k]->KeyEncrypted_0,
    decreases j,
{
    if k == j - 1 {
        run::course_facts(course, k);
    } else {
        told_pubkey_stays(course, k, j - 1, idx);
        pubkeys_only_grow(course, j - 1);
    }
}

proof fn pubkeys_only_grow(course: Course, i: int)
    requires
        course.is_course(),
        0 <= i < course.events.len(),
    ensures
        course.at(i).progress.pubkeys@.is_prefix_of(course.at(i + 1).progress.pubkeys@),
{
    run::course_facts(course, i);
    run::step_changes_its_own(course.at(i), course.events[i], course.at(i + 1));
}

/// Once the encrypted keys are stored, the public keys that were told of them are imported into the
/// legacy account: one for each transparent key of the wallet, in their order.
pub proof fn transparent_keys_are_imported(course: Course) -> (k: int)
    requires
        course.is_complete(),
    ensures
        0 < k < course.events.len(),
        run::asks(course.states[k - 1], Action::StoreEncryptedKeys),
        exists|account: AccountUuid, pubkeys: Vec<PublicKey>|
            #![trigger run::asks(
                course.states[k],
                Action::ImportPubkeys { account, pubkeys: &pubkeys },
            )]
            {
                &&& run::asks(
                    course.states[k],
                    Action::ImportPubkeys { account, pubkeys: &pubkeys },
                )
                &&& course.at(k).progress.legacy_account == Some(account)
                &&& pubkeys@.len() == course.wallet.keys@.len()
                &&& forall|i: int|
                    0 <= i < course.events.len() && (#[trigger] course.stage(i)) is KeyEncrypt
                        ==> course.events[i] is KeyEncrypted
                        && course.stage(i)->KeyEncrypt_idx < pubkeys@.len()
                        && pubkeys@[course.stage(i)->KeyEncrypt_idx as int]
                        == course.events[i]->KeyEncrypted_0
            },
{
    let before = run::reaches_store_keys(course);
    run::course_facts(course, before);
    run::ends_finished(course);
    let k = before + 1;
    run::course_facts(course, k);
    run::asks_what_is_pending(course.states[before]);
    run::asks_what_is_pending(course.states[k]);
    let account = course.at(k).progress.legacy_account.unwrap();
    let pubkeys = course.at(k).progress.pubkeys;
    assert(run::asks(course.states[k], Action::ImportPubkeys { account, pubkeys: &pubkeys }));
    assert forall|i: int|
        0 <= i < course.events.len() && (#[trigger] course.stage(i)) is KeyEncrypt implies
        course.events[i] is KeyEncrypted && course.stage(i)->KeyEncrypt_idx < pubkeys@.len()
        && pubkeys@[course.stage(i)->KeyEncrypt_idx as int] == course.events[i]->KeyEncrypted_0 by {
        if k <= i {
            run::progress_is_kept(course, k, i);
        }
        told_pubkey_stays(course, i, k, course.stage(i)->KeyEncrypt_idx);
    }
    k
}

/// Every watch-only key that can be imported is, into the legacy account, whether or not there are
/// redeem scripts: the keys are those of the P2PK entries whose keys are compressed and readable,
/// in their order.
pub proof fn watch_only_keys_are_imported(course: Course) -> (k: int)
    requires
        course.is_complete(),
        course.at(0).plan.watch.pubkeys@.len() > 0 || course.at(0).plan.scripts.parsed@.len() > 0,
    ensures
        0 <= k < course.events.len(),
        exists|account: AccountUuid, pubkeys: Vec<PublicKey>|
            #![trigger run::asks(
                course.states[k],
                Action::ImportPubkeys { account, pubkeys: &pubkeys },
            )]
            {
                &&& run::asks(
                    course.states[k],
                    Action::ImportPubkeys { account, pubkeys: &pubkeys },
                )
                &&& course.at(k).progress.legacy_account == Some(account)
                &&& pubkeys == course.at(0).plan.watch.pubkeys
                &&& watchonly::key_views(pubkeys@) == course.wallet.watch_scripts@.filter(
                    |kind: watchonly::WatchScriptKind|
                        kind is P2PK && kind->P2PK_0@.len() == 33 && transparent::public_key_of(
                            kind->P2PK_0@,
                        ) is Ok,
                ).map_values(|kind: watchonly::WatchScriptKind| kind->P2PK_0@)
            },
{
    let k = run::reaches_watched(course);
    run::course_facts(course, k);
    run::asks_what_is_pending(course.states[k]);
    let account = course.at(k).progress.legacy_account.unwrap();
    let pubkeys = course.at(0).plan.watch.pubkeys;
    assert(run::asks(course.states[k], Action::ImportPubkeys { account, pubkeys: &pubkeys }));
    watchonly::imported_keys_are_readable(
        course.wallet.watch_scripts@,
        watchonly::script_views(course.at(0).plan.scripts.parsed@),
    );
    k
}

/// Every redeem script that can be read is offered for import into the legacy account. Its address
/// is exposed if it was taken, and it is counted as unsupported if it was not.
pub proof fn redeem_scripts_are_imported(course: Course, idx: usize) -> (k: int)
    requires
        course.is_complete(),
        idx < course.at(0).plan.scripts.parsed@.len(),
    ensures
        0 <= k < course.events.len(),
        exists|account: AccountUuid| #[trigger]
            run::asks(
                course.states[k],
                Action::ImportScript {
                    account,
                    script: &course.at(0).plan.scripts.parsed@[idx as int],
                },
            ) && course.at(k).progress.legacy_account == Some(account),
        course.events[k] is ScriptImported,
        !course.events[k]->ScriptImported_0 ==> course.at(k + 1).progress.unsupported_scripts
            == course.at(k).progress.unsupported_scripts + 1,
        course.events[k]->ScriptImported_0 ==> course.at(k + 1).progress.unsupported_scripts
            == course.at(k).progress.unsupported_scripts,
{
    let k = run::reaches_script(course, idx);
    run::course_facts(course, k);
    course.at(k).items_fit();
    migration::refused_step(
        course.at(k).progress.scripts_imported@,
        course.events[k]->ScriptImported_0,
    );
    run::asks_what_is_pending(course.states[k]);
    let account = course.at(k).progress.legacy_account.unwrap();
    assert(run::asks(
        course.states[k],
        Action::ImportScript { account, script: &course.at(0).plan.scripts.parsed@[idx as int] },
    ));
    k
}

/// Whether an address is one of those that the migration has to mark: that of a transparent key
/// that was encrypted, of a watch-only key, of a redeem script that was imported, or, without a
/// chain, one that an output of a transaction of the wallet pays to.
pub open spec fn has_to_be_marked(state: Migration, address: TransparentAddress) -> bool {
    ||| exists|i: int|
        #![trigger state.progress.pubkeys@[i]]
        0 <= i < state.progress.pubkeys@.len() && address is PublicKeyHash
            && address->PublicKeyHash_0@ == transparent::public_key_hash(
            state.progress.pubkeys@[i]@,
        )
    ||| exists|i: int|
        #![trigger state.plan.watch.pubkeys@[i]]
        0 <= i < state.plan.watch.pubkeys@.len() && address is PublicKeyHash
            && address->PublicKeyHash_0@ == transparent::public_key_hash(
            state.plan.watch.pubkeys@[i]@,
        )
    ||| exists|i: int|
        #![trigger state.plan.scripts.parsed@[i]]
        0 <= i < state.plan.scripts.parsed@.len() && i < state.progress.scripts_imported@.len()
            && state.progress.scripts_imported@[i] && address is ScriptHash
            && address->ScriptHash_0@ == transparent::script_hash(state.plan.scripts.parsed@[i]@)
    ||| state.plan.options.no_scan && exists|i: int, j: int|
        #![trigger transactions::output_scripts(
            transactions::parsed_transaction(state.plan.wallet.transactions@[i].raw@, 0)->Ok_0,
        )[j]]
        0 <= i < state.plan.wallet.transactions@.len() && 0 <= j < transactions::output_scripts(
            transactions::parsed_transaction(state.plan.wallet.transactions@[i].raw@, 0)->Ok_0,
        ).len() && transparent::pays_to(
            transactions::output_scripts(
                transactions::parsed_transaction(state.plan.wallet.transactions@[i].raw@, 0)->Ok_0,
            )[j],
            address,
        )
}

/// The addresses of keys are those of the hashes of the keys.
proof fn keys_are_addressed_by_hash(keys: Seq<PublicKey>, address: TransparentAddress)
    ensures
        exposure::key_addresses(watchonly::key_views(keys)).contains(address) <==> exists|i: int|
            #![trigger keys[i]]
            0 <= i < keys.len() && address is PublicKeyHash && address->PublicKeyHash_0@
                == transparent::public_key_hash(keys[i]@),
{
    let views = watchonly::key_views(keys);
    if exposure::key_addresses(views).contains(address) {
        let i = choose|i: int|
            0 <= i < views.len() && #[trigger] transparent::addresses_key(address, views[i]);
        assert(keys[i]@ == views[i]);
    }
    if exists|i: int|
        #![trigger keys[i]]
        0 <= i < keys.len() && address is PublicKeyHash && address->PublicKeyHash_0@
            == transparent::public_key_hash(keys[i]@) {
        let i = choose|i: int|
            #![trigger keys[i]]
            0 <= i < keys.len() && address is PublicKeyHash && address->PublicKeyHash_0@
                == transparent::public_key_hash(keys[i]@);
        assert(transparent::addresses_key(address, views[i]));
    }
}

/// The addresses of the redeem scripts that were imported are those of the hashes of the scripts.
proof fn scripts_are_addressed_by_hash(
    scripts: Seq<transparent::RedeemScript>,
    imported: Seq<bool>,
    address: TransparentAddress,
)
    requires
        imported.len() <= scripts.len(),
    ensures
        migration::script_addresses(watchonly::script_views(scripts), imported).contains(address)
            <==> exists|i: int|
            #![trigger scripts[i]]
            0 <= i < scripts.len() && i < imported.len() && imported[i] && address is ScriptHash
                && address->ScriptHash_0@ == transparent::script_hash(scripts[i]@),
{
    let views = watchonly::script_views(scripts);
    if migration::script_addresses(views, imported).contains(address) {
        let i = choose|i: int|
            0 <= i < imported.len() && imported[i]
                && #[trigger] transparent::addresses_redeem_script(address, views[i]);
        assert(scripts[i]@ == views[i]);
    }
    if exists|i: int|
        #![trigger scripts[i]]
        0 <= i < scripts.len() && i < imported.len() && imported[i] && address is ScriptHash
            && address->ScriptHash_0@ == transparent::script_hash(scripts[i]@) {
        let i = choose|i: int|
            #![trigger scripts[i]]
            0 <= i < scripts.len() && i < imported.len() && imported[i] && address is ScriptHash
                && address->ScriptHash_0@ == transparent::script_hash(scripts[i]@);
        assert(transparent::addresses_redeem_script(address, views[i]));
    }
}

/// The addresses that have to be marked are those that the migration has gathered once it comes to
/// mark them.
proof fn gathered_addresses_have_to_be_marked(state: Migration, address: TransparentAddress)
    requires
        state.wf(),
        state.progress.stage == Stage::Receivers,
    ensures
        state.progress.to_expose@.contains(address) <==> has_to_be_marked(state, address),
{
    keys_are_addressed_by_hash(state.progress.pubkeys@, address);
    keys_are_addressed_by_hash(state.plan.watch.pubkeys@, address);
    scripts_are_addressed_by_hash(
        state.plan.scripts.parsed@,
        state.progress.scripts_imported@,
        address,
    );
    transactions::paid_addresses_are_those_of_outputs(state.plan.wallet.transactions@, address);
}

/// The addresses of the wallet are read where any address is to be exposed. Those of them that are
/// to be are marked, once each, at the birthday of the accounts, unless there are none.
pub proof fn known_addresses_are_marked(course: Course) -> (k: int)
    requires
        course.is_complete(),
    ensures
        0 <= k < course.events.len(),
        (exists|address: TransparentAddress| #[trigger] has_to_be_marked(course.at(k), address))
            ==> run::asks(course.states[k], Action::ReadReceivers)
            && course.events[k] is Receivers,
        (forall|address: TransparentAddress| !#[trigger] has_to_be_marked(course.at(k), address))
            ==> run::asks(course.states[k], Action::Proceed),
        course.events[k] matches Event::Receivers(known) ==> exists|marks: Vec<
            (TransparentAddress, u32),
        >|
            #![trigger marks@]
            {
                &&& exposure::marked(marks@).no_duplicates()
                &&& forall|address: TransparentAddress| #[trigger]
                    exposure::marked(marks@).contains(address) <==> known@.contains(address)
                        && has_to_be_marked(course.at(k), address)
                &&& forall|i: int|
                    0 <= i < marks@.len() ==> (#[trigger] marks@[i]).1
                        == course.at(k).progress.birthday
                &&& marks@.len() > 0 ==> run::asks(
                    course.states[k + 1],
                    Action::MarkExposed { marks: &marks },
                )
                &&& marks@.len() == 0 ==> run::asks(course.states[k + 1], Action::Proceed)
            },
{
    let k = run::reaches_receivers(course);
    run::course_facts(course, k);
    run::course_facts(course, k + 1);
    run::asks_what_is_pending(course.states[k]);
    run::asks_what_is_pending(course.states[k + 1]);
    let gathered = course.at(k).progress.to_expose@;
    assert forall|address: TransparentAddress| #[trigger]
        gathered.contains(address) <==> has_to_be_marked(course.at(k), address) by {
        gathered_addresses_have_to_be_marked(course.at(k), address);
    }
    if exists|address: TransparentAddress| #[trigger] has_to_be_marked(course.at(k), address) {
        let address = choose|address: TransparentAddress| #[trigger]
            has_to_be_marked(course.at(k), address);
        gathered_addresses_have_to_be_marked(course.at(k), address);
        assert(gathered.contains(address));
    }
    if forall|address: TransparentAddress| !#[trigger] has_to_be_marked(course.at(k), address) {
        assert(gathered =~= Set::<TransparentAddress>::empty());
    }
    if course.events[k] is Receivers {
        let known = course.events[k]->Receivers_0;
        let marks = course.at(k + 1).progress.marks;
        let marked = exposure::marked(marks@);
        assert(marked.to_set() == gathered.intersect(known@.to_set()));
        assert forall|address: TransparentAddress| #[trigger]
            marked.contains(address) <==> known@.contains(address) && has_to_be_marked(
                course.at(k),
                address,
            ) by {
            gathered_addresses_have_to_be_marked(course.at(k), address);
            assert(marked.to_set().contains(address) <==> marked.contains(address));
            assert(known@.to_set().contains(address) <==> known@.contains(address));
        }
        assert(marks@ == marks@);
    }
    k
}

/// Where that is asked for, and only there, the transactions of the wallet are read and handed over
/// to be stored, each under the rules of the height at which it was mined or else of its expiry,
/// once the viewing keys and the height of the chain are known.
pub proof fn transactions_are_stored(course: Course) -> (k: int)
    requires
        course.is_complete(),
    ensures
        0 <= k < course.events.len(),
        !course.options.buffer_wallet_transactions ==> run::asks(course.states[k], Action::Proceed)
            && run::asks(course.states[k + 1], Action::Finish),
        course.options.buffer_wallet_transactions ==> run::asks(
            course.states[k],
            Action::ReadScanContext,
        ) && exists|txs: Vec<DecodedTransaction>| #[trigger]
            run::asks(course.states[k + 1], Action::StoreTransactions { transactions: &txs })
                && txs@.len() == course.wallet.transactions@.len() && forall|i: int|
                0 <= i < txs@.len() ==> {
                    &&& (#[trigger] txs@[i]).mined_height == course.at(k).progress.heights@[i]
                    &&& txs@[i].mined_height matches Some(height)
                        ==> transactions::parsed_transaction(
                        course.wallet.transactions@[i].raw@,
                        crate::consensus::branch_at(course.upgrades, height),
                    ) == Ok::<_, std::io::Error>(txs@[i].transaction)
                    &&& txs@[i].mined_height is None && course.wallet.transactions@[i].expiry_height
                        > 0 ==> transactions::parsed_transaction(
                        course.wallet.transactions@[i].raw@,
                        crate::consensus::branch_at(
                            course.upgrades,
                            course.wallet.transactions@[i].expiry_height,
                        ),
                    ) == Ok::<_, std::io::Error>(txs@[i].transaction)
                },
{
    let k = run::reaches_buffer(course);
    run::course_facts(course, k);
    run::course_facts(course, k + 1);
    run::asks_what_is_pending(course.states[k]);
    run::asks_what_is_pending(course.states[k + 1]);
    if course.options.buffer_wallet_transactions {
        let txs = course.at(k + 1).progress.decoded;
        assert(run::asks(
            course.states[k + 1],
            Action::StoreTransactions { transactions: &txs },
        ));
        let heights = course.at(k).progress.heights@;
        assert(heights.len() == course.wallet.transactions@.len());
        assert forall|i: int| 0 <= i < txs@.len() implies {
            &&& (#[trigger] txs@[i]).mined_height == heights[i]
            &&& txs@[i].mined_height matches Some(height) ==> transactions::parsed_transaction(
                course.wallet.transactions@[i].raw@,
                crate::consensus::branch_at(course.upgrades, height),
            ) == Ok::<_, std::io::Error>(txs@[i].transaction)
            &&& txs@[i].mined_height is None && course.wallet.transactions@[i].expiry_height > 0
                ==> transactions::parsed_transaction(
                course.wallet.transactions@[i].raw@,
                crate::consensus::branch_at(
                    course.upgrades,
                    course.wallet.transactions@[i].expiry_height,
                ),
            ) == Ok::<_, std::io::Error>(txs@[i].transaction)
        } by {
            transactions::decoded_transactions_are_those_of_the_wallet(
                course.wallet.transactions@,
                heights,
                course.upgrades,
                txs,
                i,
            );
        }
    }
    k
}

/// The redeem scripts that could not be imported are those that it was told so of.
proof fn refusals_are_as_told(course: Course, j: int)
    requires
        course.is_course(),
        0 <= j < course.states.len(),
    ensures
        course.at(j).progress.unsupported_scripts == course.events.take(j).filter(
            |event: Event| event == Event::ScriptImported(false),
        ).len(),
    decreases j,
{
    let refusal = |event: Event| event == Event::ScriptImported(false);
    reveal_with_fuel(Seq::filter, 1);
    run::course_facts(course, 0);
    if j > 0 {
        refusals_are_as_told(course, j - 1);
        crate::sequences::filter_step(course.events, j - 1, refusal);
        next_refusals(course, j - 1);
    }
}

proof fn next_refusals(course: Course, i: int)
    requires
        course.is_course(),
        0 <= i < course.events.len(),
    ensures
        course.at(i + 1).progress.unsupported_scripts == course.at(i).progress.unsupported_scripts
            + (if course.events[i] == Event::ScriptImported(false) {
            1int
        } else {
            0int
        }),
{
    run::course_facts(course, i);
    course.at(i).items_fit();
    run::step_changes_its_own(course.at(i), course.events[i], course.at(i + 1));
    migration::refused_step(course.at(i).progress.scripts_imported@, true);
}

/// The summary of a complete migration says what the wallet held and what became of it: every
/// number is a number of things in the wallet, or of answers that the migration was given.
pub proof fn summary_is_of_the_wallet(course: Course, summary: MigrationSummary)
    requires
        course.is_complete(),
        call_ensures(Migrator::summary, (&course.states.last(),), Some(summary)),
    ensures
        summary.mnemonic_seed == (course.wallet.mnemonic@.len() > 0),
        summary.legacy_hd_seed == course.wallet.legacy_seed is Some,
        summary.unified_accounts == course.wallet.unified_accounts@.len(),
        summary.sapling_spending == course.wallet.sapling_keys@.len(),
        summary.sapling_viewonly == course.wallet.sapling_viewing_keys@.len(),
        summary.transparent_keys == course.wallet.keys@.len(),
        summary.unified_address_meta_dropped == course.wallet.unified_addresses,
        summary.dropped_sprout_keys == course.wallet.sprout_keys,
        summary.dropped_wkey_keys == course.wallet.wallet_keys,
        summary.skipped_unsupported_scripts == course.events.filter(
            |event: Event| event == Event::ScriptImported(false),
        ).len(),
        summary.watchonly_scripts + summary.skipped_unsupported_scripts
            + summary.err_unparseable_scripts == course.wallet.redeem_scripts@.len(),
        summary.err_unparseable_scripts == transparent::script_bytes(
            course.wallet.redeem_scripts@,
        ).filter(|script: Seq<u8>| !transparent::is_redeem_script(script)).len(),
        summary.skipped_uncompressed_pubkeys == course.wallet.watch_scripts@.filter(
            |kind: watchonly::WatchScriptKind| kind is P2PK && kind->P2PK_0@.len() != 33,
        ).len(),
        summary.err_malformed_pubkeys == course.wallet.watch_scripts@.filter(
            |kind: watchonly::WatchScriptKind|
                kind is P2PK && kind->P2PK_0@.len() == 33 && transparent::public_key_of(
                    kind->P2PK_0@,
                ) is Err,
        ).len(),
        summary.watchonly_pubkeys == course.wallet.watch_scripts@.filter(
            |kind: watchonly::WatchScriptKind|
                kind is P2PK && kind->P2PK_0@.len() == 33 && transparent::public_key_of(
                    kind->P2PK_0@,
                ) is Ok,
        ).len(),
        summary.skipped_p2pkh_address_only == course.wallet.watch_scripts@.filter(
            |kind: watchonly::WatchScriptKind| kind is P2PKH,
        ).len(),
        summary.skipped_p2sh_address_only == course.wallet.watch_scripts@.filter(
            |kind: watchonly::WatchScriptKind|
                kind is P2SH && forall|i: int|
                    0 <= i < watchonly::script_views(course.at(0).plan.scripts.parsed@).len()
                        ==> !#[trigger] transparent::addresses_redeem_script(
                        TransparentAddress::ScriptHash(kind->P2SH_0),
                        watchonly::script_views(course.at(0).plan.scripts.parsed@)[i],
                    ),
        ).len(),
        summary.skipped_nonstandard == course.wallet.watch_scripts@.filter(
            |kind: watchonly::WatchScriptKind| kind is Other,
        ).len(),
        summary.sapling_standalone == course.wallet.sapling_keys@.filter(
            |key: sapling::SaplingKey|
                !(key.seed_fp is Some && (course.events[1] == Event::MnemonicStored(
                    key.seed_fp.unwrap(),
                ) || course.events.contains(Event::LegacySeedStored(key.seed_fp.unwrap())))),
        ).len(),
        forall|name: Seq<char>| #[trigger]
            summary.unparsed_records.counts().contains_key(name) <==> crate::text::texts(
                course.unparsed_records@,
            ).contains(name),
        forall|name: Seq<char>| #[trigger]
            summary.unparsed_records.counts().contains_key(name)
                ==> summary.unparsed_records.counts()[name] == crate::text::texts(
                course.unparsed_records@,
            ).to_multiset().count(name),
{
    let last = course.events.len() as int;
    run::ends_finished(course);
    run::course_facts(course, last);
    comes_after_the_start(course, last);
    run::mnemonic_fingerprint_is_as_told(course, last);
    run::accounts_and_mnemonic_come_first(course);
    legacy_fingerprint_is_as_told(course, last);
    refusals_are_as_told(course, last);
    assert(course.events.take(last) =~= course.events);
    let scripts = watchonly::script_views(course.at(0).plan.scripts.parsed@);
    watchonly::counts_are_by_kind(course.wallet.watch_scripts@, scripts);
    watchonly::imported_keys_are_readable(course.wallet.watch_scripts@, scripts);
    let plan = course.at(0).plan;
    assert(watchonly::key_views(plan.watch.pubkeys@).len() == plan.watch.pubkeys@.len());
    assert(transparent::script_bytes(plan.scripts.unparseable@).len()
        == plan.scripts.unparseable@.len());
    crate::laws::summary_adds_up(course.at(last), summary);
    let m = course.at(last).progress.mnemonic_fp;
    let l = course.at(last).progress.legacy_fp;
    assert forall|key: sapling::SaplingKey| #[trigger]
        sapling::is_standalone(key.seed_fp, m, l) == !(key.seed_fp is Some && (course.events[1]
            == Event::MnemonicStored(key.seed_fp.unwrap()) || course.events.contains(
            Event::LegacySeedStored(key.seed_fp.unwrap()),
        ))) by {
        if key.seed_fp is Some {
            let told = Event::LegacySeedStored(key.seed_fp.unwrap());
            if course.events.contains(told) {
                let i = course.events.index_of(told);
                assert(course.events[i] is LegacySeedStored);
            }
        }
    }
    assert((|key: sapling::SaplingKey| sapling::is_standalone(key.seed_fp, m, l)) =~= (
    |key: sapling::SaplingKey|
        !(key.seed_fp is Some && (course.events[1] == Event::MnemonicStored(key.seed_fp.unwrap())
            || course.events.contains(Event::LegacySeedStored(key.seed_fp.unwrap()))))));
}

} // verus!
