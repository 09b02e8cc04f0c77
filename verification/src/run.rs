//! Whole migrations, from the start to the end: what every one of them has asked for, whatever it was
//! told.

use crate::accounts;
use crate::accounts::AccountSource;
use crate::action::{Action, Event, Stage};
use crate::consensus::NetworkUpgrades;
use crate::fingerprint::SeedFingerprint;
use crate::laws;
use crate::migration::{Migration, MigrationOptions};
use crate::migrator::{Advance, Migrator};
use crate::mnemonic;
use crate::mnemonic::Mnemonic;
use crate::network::NetworkType;
use crate::transactions;
use crate::transactions::BlockHash;
use crate::wallet::Wallet;
use vstd::prelude::*;

verus! {

/// The course of a migration: what it was begun with, the states that it went through, and what it
/// was told in each of them but the last.
pub struct Course {
    pub wallet: Wallet,
    pub unparsed_records: Vec<String>,
    pub options: MigrationOptions,
    pub network: NetworkType,
    pub upgrades: NetworkUpgrades,
    pub states: Seq<Migrator>,
    pub events: Seq<Event>,
}

/// Whether `action` is what the migration asks to be done.
pub open spec fn asks(state: Migrator, action: Action<'_>) -> bool {
    forall|asked: Action<'_>| #[trigger]
        call_ensures(Migrator::action, (&state,), asked) ==> asked == action
}

impl Course {
    /// The migration was begun with what it says, and each state comes from the one before and from
    /// what the migration was told there.
    pub open spec fn is_course(self) -> bool {
        &&& self.states.len() == self.events.len() + 1
        &&& call_ensures(
            Migrator::start,
            (self.wallet, self.unparsed_records, self.options, self.network, self.upgrades),
            Ok(self.states[0]),
        )
        &&& forall|i: int|
            0 <= i < self.events.len() ==> call_ensures(
                Migrator::advance,
                (#[trigger] self.states[i], self.events[i]),
                Advance::Moved(self.states[i + 1]),
            )
    }

    /// The migration came to its end.
    pub open spec fn is_complete(self) -> bool {
        &&& self.is_course()
        &&& call_ensures(Migrator::action, (&self.states.last(),), Action::Finish)
    }

    /// The state of the migration at a point of its course.
    pub open spec fn at(self, i: int) -> Migration {
        self.states[i]@
    }

    /// The stage of the migration at a point of its course.
    pub open spec fn stage(self, i: int) -> Stage {
        self.states[i]@.progress.stage
    }
}

/// What holds at every point of the course.
pub proof fn course_facts(course: Course, i: int)
    requires
        course.is_course(),
        0 <= i < course.states.len(),
    ensures
        course.at(i).wf(),
        course.at(i).plan == course.at(0).plan,
        course.at(0).plan.wallet == course.wallet,
        course.at(0).plan.unparsed_records == course.unparsed_records,
        course.at(0).plan.options == course.options,
        course.at(0).plan.network == course.network,
        course.at(0).plan.upgrades == course.upgrades,
        course.at(0).is_new(),
        i < course.events.len() ==> {
            &&& course.at(i).awaits(course.events[i])
            &&& Migration::step(course.at(i), course.events[i], Ok(()), course.at(i + 1))
            &&& course.at(i + 1).wf()
            &&& course.at(i + 1).plan == course.at(i).plan
        },
    decreases i,
{
    if i > 0 {
        course_facts(course, i - 1);
    }
    if i < course.events.len() {
        assert(call_ensures(
            Migrator::advance,
            (course.states[i], course.events[i]),
            Advance::Moved(course.states[i + 1]),
        ));
        laws::step_keeps(course.at(i), course.events[i], Ok(()), course.at(i + 1));
    }
}

/// Two stages of which neither comes before the other are the same.
proof fn stages_are_ordered(a: Stage, b: Stage)
    ensures
        a == b || a.before(b) || b.before(a),
        !(a.before(b) && b.before(a)),
{
}

/// A complete migration ends in the last stage.
pub proof fn ends_finished(course: Course)
    requires
        course.is_complete(),
    ensures
        course.stage(course.events.len() as int) == Stage::Finished,
{
    course_facts(course, course.events.len() as int);
}

/// A stage that is never skipped is come to.
pub proof fn comes_to(course: Course, stage: Stage, from: int) -> (k: int)
    requires
        course.is_complete(),
        0 <= from < course.states.len(),
        !stage.before(course.stage(from)),
        stage.before(Stage::Finished),
        forall|j: int|
            from <= j < course.events.len() && (#[trigger] course.stage(j)).before(stage)
                ==> !stage.before(course.stage(j + 1)),
    ensures
        from <= k < course.events.len(),
        course.stage(k) == stage,
    decreases course.states.len() - from,
{
    ends_finished(course);
    stages_are_ordered(stage, course.stage(from));
    if course.stage(from) == stage {
        from
    } else {
        assert(from < course.events.len());
        comes_to(course, stage, from + 1)
    }
}

/// A later point of the course is at a later stage.
pub proof fn course_goes_forward(course: Course, i: int, j: int)
    requires
        course.is_course(),
        0 <= i < j < course.states.len(),
    ensures
        course.stage(i).before(course.stage(j)),
    decreases j - i,
{
    course_facts(course, j - 1);
    laws::step_goes_forward(
        course.at(j - 1),
        course.events[j - 1],
        Ok(()),
        course.at(j),
    );
    if i < j - 1 {
        course_goes_forward(course, i, j - 1);
    }
}

/// What is asked for is what the state says is pending.
pub proof fn asks_what_is_pending(state: Migrator)
    ensures
        asks(state, state@.pending()),
{
}

/// Nothing but its own stage changes what a migration has come to know.
pub proof fn step_changes_its_own(pre: Migration, event: Event, post: Migration)
    requires
        pre.wf(),
        pre.awaits(event),
        Migration::step(pre, event, Ok(()), post),
    ensures
        pre.progress.stage.phase() != 0 ==> post.progress.existing == pre.progress.existing
            && post.progress.mnemonic == pre.progress.mnemonic,
        pre.progress.stage.phase() != 1 ==> post.progress.mnemonic_fp == pre.progress.mnemonic_fp,
        pre.progress.stage.phase() != 2 ==> post.progress.tip == pre.progress.tip,
        pre.progress.stage.phase() != 3 ==> post.progress.block_index == pre.progress.block_index,
        pre.progress.stage.phase() >= 4 ==> post.progress.heights == pre.progress.heights,
        pre.progress.stage.phase() != 4 ==> post.progress.birthday == pre.progress.birthday,
        pre.progress.stage.phase() != 5 && pre.progress.stage.phase() != 9
            ==> post.progress.legacy_account == pre.progress.legacy_account,
        pre.progress.stage.phase() != 7 ==> post.progress.legacy_fp == pre.progress.legacy_fp
            && post.progress.derived == pre.progress.derived,
        pre.progress.stage.phase() != 11 ==> post.progress.sapling_standalone
            == pre.progress.sapling_standalone,
        pre.progress.stage.phase() != 14 ==> post.progress.pubkeys == pre.progress.pubkeys,
        pre.progress.stage.phase() != 18 ==> post.progress.scripts_imported
            == pre.progress.scripts_imported && post.progress.unsupported_scripts
            == pre.progress.unsupported_scripts,
        pre.progress.stage.phase() != 20 ==> post.progress.marks == pre.progress.marks,
        pre.progress.stage.phase() != 22 ==> post.progress.decoded == pre.progress.decoded,
{
}

/// What was known after a phase of the migration is still known later.
pub open spec fn still_knows(before: Migration, after: Migration) -> bool {
    let phase = before.progress.stage.phase();
    let p = before.progress;
    let q = after.progress;
    &&& phase > 0 ==> q.mnemonic == p.mnemonic && q.existing == p.existing
    &&& phase > 1 ==> q.mnemonic_fp == p.mnemonic_fp
    &&& phase > 2 ==> q.tip == p.tip
    &&& phase > 3 ==> q.heights == p.heights && q.block_index == p.block_index
    &&& phase > 4 ==> q.birthday == p.birthday
    &&& phase > 5 && p.legacy_account is Some ==> q.legacy_account == p.legacy_account
    &&& phase > 9 ==> q.legacy_account == p.legacy_account
    &&& phase > 7 ==> q.legacy_fp == p.legacy_fp && q.derived == p.derived
    &&& phase > 11 ==> q.sapling_standalone == p.sapling_standalone
    &&& phase > 14 ==> q.pubkeys == p.pubkeys
    &&& phase > 18 ==> q.scripts_imported == p.scripts_imported && q.unsupported_scripts
        == p.unsupported_scripts
    &&& phase > 20 ==> q.marks == p.marks
    &&& phase > 22 ==> q.decoded == p.decoded
}

proof fn next_still_knows(course: Course, i: int)
    requires
        course.is_course(),
        0 <= i < course.events.len(),
    ensures
        still_knows(course.at(i), course.at(i + 1)),
        course.stage(i).phase() <= course.stage(i + 1).phase(),
        5 < course.stage(i).phase() && course.at(i).progress.legacy_account is Some ==> course.at(
            i + 1,
        ).progress.legacy_account is Some,
{
    course_facts(course, i);
    step_changes_its_own(course.at(i), course.events[i], course.at(i + 1));
    course_goes_forward(course, i, i + 1);
}

/// What was known after a phase of the migration remains known.
pub proof fn progress_is_kept(course: Course, i: int, j: int)
    requires
        course.is_course(),
        0 <= i <= j < course.states.len(),
    ensures
        still_knows(course.at(i), course.at(j)),
        course.stage(i).phase() <= course.stage(j).phase(),
    decreases j - i,
{
    if i < j {
        progress_is_kept(course, i, j - 1);
        next_still_knows(course, j - 1);
    }
}

/// A migration first asks where the accounts of the wallet database come from, and reads the
/// mnemonic of the wallet, which has to be readable if there is one.
pub proof fn accounts_and_mnemonic_come_first(course: Course)
    requires
        course.is_complete(),
    ensures
        course.events.len() > 2,
        asks(course.states[0], Action::ReadAccountSources),
        course.events[0] is AccountSources,
        course.stage(1) == Stage::StoreMnemonic,
        course.stage(2) == Stage::ChainTip,
        course.wallet.mnemonic@.len() == 0 ==> asks(course.states[1], Action::Proceed)
            && course.events[1] is Proceeded,
        course.wallet.mnemonic@.len() > 0 ==> {
            &&& mnemonic::mnemonic_of(course.wallet.mnemonic@) is Ok
            &&& course.events[1] is MnemonicStored
            &&& exists|m: Mnemonic| #[trigger]
                asks(course.states[1], Action::StoreMnemonic { mnemonic: &m }) && m@
                    == mnemonic::mnemonic_of(course.wallet.mnemonic@)->Ok_0
        },
{
    ends_finished(course);
    course_facts(course, 0);
    course_facts(course, 1);
    course_facts(course, 2);
    asks_what_is_pending(course.states[0]);
    asks_what_is_pending(course.states[1]);
    if course.wallet.mnemonic@.len() > 0 {
        let m = course.at(1).progress.mnemonic.unwrap();
        assert(asks(course.states[1], Action::StoreMnemonic { mnemonic: &m }));
    }
}

/// The fingerprint of the seed of the mnemonic is the one that was told when it was stored.
pub proof fn mnemonic_fingerprint_is_as_told(course: Course, j: int)
    requires
        course.is_complete(),
        2 <= j < course.states.len(),
    ensures
        course.at(j).progress.mnemonic_fp == match course.events[1] {
            Event::MnemonicStored(fp) => Some(fp),
            _ => None,
        },
        course.at(j).progress.mnemonic matches Some(m) ==> m@ == mnemonic::mnemonic_of(
            course.wallet.mnemonic@,
        )->Ok_0,
        course.at(j).progress.mnemonic is Some <==> course.wallet.mnemonic@.len() > 0,
{
    accounts_and_mnemonic_come_first(course);
    course_facts(course, 1);
    course_facts(course, 2);
    course_facts(course, j);
    progress_is_kept(course, 2, j);
    if 2 < j {
        course_goes_forward(course, 2, j);
    }
}

/// A migration that was completed was allowed: if the wallet database had accounts that come from
/// the mnemonic of a zcashd wallet, several imports were allowed, and none of those accounts has
/// the seed of this wallet.
pub proof fn complete_migrations_were_allowed(
    course: Course,
    sources: Vec<AccountSource>,
    i: int,
    seed_fingerprint: SeedFingerprint,
    name: String,
)
    requires
        course.is_complete(),
        course.events[0] == Event::AccountSources(sources),
        0 <= i < sources@.len(),
        sources@[i] == (AccountSource::Derived { seed_fingerprint, key_source: Some(name) }),
        name@ == "zcashd_mnemonic"@,
    ensures
        course.options.allow_multiple_wallet_imports,
        course.wallet.mnemonic@.len() > 0 ==> seed_fingerprint@
            != crate::fingerprint::fingerprint_of(
            mnemonic::mnemonic_seed(mnemonic::mnemonic_of(course.wallet.mnemonic@)->Ok_0),
        ),
{
    accounts_and_mnemonic_come_first(course);
    course_facts(course, 0);
    course_facts(course, 1);
    course_facts(course, 2);
    accounts::zcashd_sourced_is_found(sources@, i);
}

/// The wallet belongs to the network of the Zallet wallet.
pub proof fn complete_migrations_are_of_one_network(course: Course)
    requires
        course.is_complete(),
    ensures
        course.wallet.network is Main <==> course.network is Main,
        course.wallet.network is Test <==> course.network is Test,
        course.wallet.network is Regtest <==> course.network is Regtest,
{
    course_facts(course, 0);
}

/// The tip of the chain is read, and is used unless it is the genesis block. Without a chain there
/// is none.
pub proof fn tip_is_as_told(course: Course) -> (k: int)
    requires
        course.is_complete(),
    ensures
        k == 2,
        course.options.no_scan ==> asks(course.states[k], Action::Proceed),
        !course.options.no_scan ==> asks(course.states[k], Action::ReadTip)
            && course.events[k] is Tip,
        forall|j: int|
            3 <= j < course.states.len() ==> (#[trigger] course.at(j)).progress.tip == (
            if course.options.no_scan || course.events[k]->Tip_0 == 0 {
                None
            } else {
                Some(course.events[k]->Tip_0)
            }),
        course.upgrades.sapling is Some,
{
    accounts_and_mnemonic_come_first(course);
    course_facts(course, 2);
    course_facts(course, 3);
    asks_what_is_pending(course.states[2]);
    assert forall|j: int| 3 <= j < course.states.len() implies (#[trigger] course.at(
        j,
    )).progress.tip == (if course.options.no_scan || course.events[2]->Tip_0 == 0 {
        None
    } else {
        Some(course.events[2]->Tip_0)
    }) by {
        progress_is_kept(course, 3, j);
        progress_is_kept(course, 0, 2);
    }
    2
}

/// Every block in the index was found in the main chain, at the height that it has there.
proof fn index_is_as_told(course: Course, j: int, n: int) -> (k: int)
    requires
        course.is_course(),
        0 <= j < course.states.len(),
        0 <= n < course.at(j).progress.block_index@.len(),
    ensures
        0 <= k < j,
        asks(
            course.states[k],
            Action::FindBlock { hash: course.at(j).progress.block_index@[n].0 },
        ),
        course.events[k] == Event::BlockFound(Some(course.at(j).progress.block_index@[n].1)),
    decreases j,
{
    course_facts(course, 0);
    if j == 0 {
        0
    } else {
        course_facts(course, j - 1);
        step_changes_its_own(course.at(j - 1), course.events[j - 1], course.at(j));
        asks_what_is_pending(course.states[j - 1]);
        let before = course.at(j - 1).progress.block_index@;
        if n < before.len() {
            assert(course.at(j).progress.block_index@[n] == before[n]);
            index_is_as_told(course, j - 1, n)
        } else {
            j - 1
        }
    }
}

/// A block that was found remains in the index with its height.
proof fn found_blocks_stay(course: Course, k: int, j: int, hash: BlockHash, height: u32)
    requires
        course.is_course(),
        0 <= k < j < course.states.len(),
        course.at(k).pending() == (Action::FindBlock { hash }),
        course.events[k] == Event::BlockFound(Some(height)),
    ensures
        transactions::height_of(course.at(j).progress.block_index@, hash) == Some(height),
    decreases j,
{
    if k == j - 1 {
        found_block_is_entered(course, k, hash, height);
    } else {
        found_blocks_stay(course, k, j - 1, hash, height);
        known_block_stays(course, j - 1, hash);
    }
}

proof fn found_block_is_entered(course: Course, k: int, hash: BlockHash, height: u32)
    requires
        course.is_course(),
        0 <= k < course.events.len(),
        course.at(k).pending() == (Action::FindBlock { hash }),
        course.events[k] == Event::BlockFound(Some(height)),
    ensures
        transactions::height_of(course.at(k + 1).progress.block_index@, hash) == Some(height),
{
    course_facts(course, k);
    transactions::height_of_push(course.at(k).progress.block_index@, hash, height, hash);
}

proof fn known_block_stays(course: Course, k: int, hash: BlockHash)
    requires
        course.is_course(),
        0 <= k < course.events.len(),
        transactions::height_of(course.at(k).progress.block_index@, hash) is Some,
    ensures
        transactions::height_of(course.at(k + 1).progress.block_index@, hash)
            == transactions::height_of(course.at(k).progress.block_index@, hash),
{
    course_facts(course, k);
    laws::block_heights_are_kept(
        course.at(k),
        course.events[k],
        Ok(()),
        course.at(k + 1),
        hash,
    );
}

/// The height at which a transaction was mined is the one at which its block was found in the main
/// chain, whatever else the transaction holds. Every block of a transaction is asked for, and a
/// transaction whose block was not found has no height.
pub proof fn heights_are_those_of_the_blocks_found(course: Course, j: int, i: int)
    requires
        course.is_complete(),
        0 <= j < course.states.len(),
        course.stage(j).phase() >= 4,
        0 <= i < course.wallet.transactions@.len(),
    ensures
        course.at(j).progress.heights@.len() == course.wallet.transactions@.len(),
        forall|k: int|
            0 <= k < course.events.len() && call_ensures(
                Migrator::action,
                (&#[trigger] course.states[k],),
                Action::FindBlock { hash: course.wallet.transactions@[i].hash_block },
            ) && course.events[k] is BlockFound && course.events[k]->BlockFound_0 is Some
                ==> course.at(j).progress.heights@[i] == course.events[k]->BlockFound_0,
        course.at(j).progress.heights@[i] matches Some(height) ==> exists|k: int|
            #![trigger course.states[k]]
            0 <= k < course.events.len() && asks(
                course.states[k],
                Action::FindBlock { hash: course.wallet.transactions@[i].hash_block },
            ) && course.events[k] == Event::BlockFound(Some(height)),
        !course.options.no_scan && !course.wallet.transactions@[i].hash_block.is_null()
            ==> exists|k: int|
            #![trigger course.states[k]]
            0 <= k < course.events.len() && asks(
                course.states[k],
                Action::FindBlock { hash: course.wallet.transactions@[i].hash_block },
            ),
        course.options.no_scan || course.wallet.transactions@[i].hash_block.is_null()
            ==> course.at(j).progress.heights@[i] is None,
{
    let hash = course.wallet.transactions@[i].hash_block;
    course_facts(course, j);
    let index = course.at(j).progress.block_index@;
    let txs = course.wallet.transactions@;
    assert(course.at(j).progress.heights@ == transactions::mined_heights(index, txs));
    assert(course.at(j).progress.heights@[i] == transactions::height_of(index, hash));
    transactions::height_of_is_what_was_entered(index, hash);
    assert forall|k: int|
        0 <= k < course.events.len() && call_ensures(
            Migrator::action,
            (&#[trigger] course.states[k],),
            Action::FindBlock { hash },
        ) && course.events[k] is BlockFound && course.events[k]->BlockFound_0 is Some implies
        course.at(j).progress.heights@[i] == course.events[k]->BlockFound_0 by {
        let height = course.events[k]->BlockFound_0.unwrap();
        course_facts(course, k);
        assert(course.at(k).pending() == (Action::FindBlock { hash }));
        if k >= j {
            if k > j {
                course_goes_forward(course, j, k);
            }
        } else {
            found_blocks_stay(course, k, j, hash, height);
        }
    }
    if course.at(j).progress.heights@[i] is Some {
        let height = course.at(j).progress.heights@[i].unwrap();
        let n = index.index_of((hash, height));
        let k = index_is_as_told(course, j, n);
        assert(course.states[k] == course.states[k]);
    }
    if course.options.no_scan {
        laws::no_scan_finds_nothing_mined(course.at(j), i);
    } else if hash.is_null() {
        laws::unmined_stays_unmined(course.at(j), i);
    } else {
        let stage = Stage::Block { tx: i as usize };
        assert(i < course.wallet.transactions.len());
        accounts_and_mnemonic_come_first(course);
        assert forall|j: int|
            2 <= j < course.events.len() && (#[trigger] course.stage(j)).before(stage) implies
            !stage.before(course.stage(j + 1)) by {
            course_facts(course, j);
            course.at(j).items_fit();
        }
        course_facts(course, 2);
        let k = comes_to(course, stage, 2);
        course_facts(course, k);
        course.at(k).items_fit();
        asks_what_is_pending(course.states[k]);
        if transactions::needs_lookup(
            course.at(k).progress.block_index@,
            course.wallet.transactions@[i],
        ) {
            assert(asks(course.states[k], Action::FindBlock { hash }));
        } else {
            let known = course.at(k).progress.block_index@;
            transactions::height_of_is_what_was_entered(known, hash);
            let height = transactions::height_of(known, hash).unwrap();
            let n = known.index_of((hash, height));
            let earlier = index_is_as_told(course, k, n);
            assert(course.states[earlier] == course.states[earlier]);
        }
    }
}

/// A birthday is sought.
#[verifier::rlimit(40)]
pub proof fn reaches_birthday(course: Course) -> (k: int)
    requires
        course.is_complete(),
    ensures
        0 <= k < course.events.len(),
        course.stage(k) == Stage::Birthday,
        course.at(k).wf(),
        course.at(k).plan == course.at(0).plan,
{
    let stage = Stage::Birthday;
    assert forall|j: int|
        0 <= j < course.events.len() && (#[trigger] course.stage(j)).before(stage) implies
        !stage.before(course.stage(j + 1)) by {
        course_facts(course, j);
        course.at(j).items_fit();
    }
    course_facts(course, 0);
    let k = comes_to(course, stage, 0);
    course_facts(course, k);
    k
}

/// It comes to the legacy account.
#[verifier::rlimit(40)]
pub proof fn reaches_legacy_account(course: Course) -> (k: int)
    requires
        course.is_complete(),
    ensures
        0 <= k < course.events.len(),
        course.stage(k) == Stage::LegacyAccount,
        course.at(k).wf(),
        course.at(k).plan == course.at(0).plan,
{
    let stage = Stage::LegacyAccount;
    assert forall|j: int|
        0 <= j < course.events.len() && (#[trigger] course.stage(j)).before(stage) implies
        !stage.before(course.stage(j + 1)) by {
        course_facts(course, j);
        course.at(j).items_fit();
    }
    course_facts(course, 0);
    let k = comes_to(course, stage, 0);
    course_facts(course, k);
    k
}

/// It comes to the legacy seed.
#[verifier::rlimit(40)]
pub proof fn reaches_legacy_seed(course: Course) -> (k: int)
    requires
        course.is_complete(),
    ensures
        0 <= k < course.events.len(),
        course.stage(k) == Stage::LegacySeed,
        course.at(k).wf(),
        course.at(k).plan == course.at(0).plan,
{
    let stage = Stage::LegacySeed;
    assert forall|j: int|
        0 <= j < course.events.len() && (#[trigger] course.stage(j)).before(stage) implies
        !stage.before(course.stage(j + 1)) by {
        course_facts(course, j);
        course.at(j).items_fit();
    }
    course_facts(course, 0);
    let k = comes_to(course, stage, 0);
    course_facts(course, k);
    k
}

/// Every unified account is looked up.
#[verifier::rlimit(40)]
pub proof fn reaches_unified(course: Course, idx: usize) -> (k: int)
    requires
        course.is_complete(),
        idx < course.wallet.unified_accounts@.len(),
    ensures
        0 <= k < course.events.len(),
        course.stage(k) == (Stage::UnifiedLookup { idx }),
        course.at(k).wf(),
        course.at(k).plan == course.at(0).plan,
{
    let stage = (Stage::UnifiedLookup { idx });
    assert forall|j: int|
        0 <= j < course.events.len() && (#[trigger] course.stage(j)).before(stage) implies
        !stage.before(course.stage(j + 1)) by {
        course_facts(course, j);
        course.at(j).items_fit();
    }
    course_facts(course, 0);
    let k = comes_to(course, stage, 0);
    course_facts(course, k);
    k
}

/// Every Sapling spending key is taken up.
#[verifier::rlimit(40)]
pub proof fn reaches_sapling(course: Course, idx: usize) -> (k: int)
    requires
        course.is_complete(),
        idx < course.wallet.sapling_keys@.len(),
    ensures
        0 <= k < course.events.len(),
        course.stage(k) == (Stage::SaplingStandalone { idx }),
        course.at(k).wf(),
        course.at(k).plan == course.at(0).plan,
{
    let stage = (Stage::SaplingStandalone { idx });
    assert forall|j: int|
        0 <= j < course.events.len() && (#[trigger] course.stage(j)).before(stage) implies
        !stage.before(course.stage(j + 1)) by {
        course_facts(course, j);
        course.at(j).items_fit();
    }
    course_facts(course, 0);
    let k = comes_to(course, stage, 0);
    course_facts(course, k);
    k
}

/// Every Sapling viewing key is looked up.
#[verifier::rlimit(40)]
pub proof fn reaches_viewing(course: Course, idx: usize) -> (k: int)
    requires
        course.is_complete(),
        idx < course.wallet.sapling_viewing_keys@.len(),
    ensures
        0 <= k < course.events.len(),
        course.stage(k) == (Stage::ViewingLookup { idx }),
        course.at(k).wf(),
        course.at(k).plan == course.at(0).plan,
{
    let stage = (Stage::ViewingLookup { idx });
    assert forall|j: int|
        0 <= j < course.events.len() && (#[trigger] course.stage(j)).before(stage) implies
        !stage.before(course.stage(j + 1)) by {
        course_facts(course, j);
        course.at(j).items_fit();
    }
    course_facts(course, 0);
    let k = comes_to(course, stage, 0);
    course_facts(course, k);
    k
}

/// It comes to the transparent keys.
#[verifier::rlimit(40)]
pub proof fn reaches_encryptor(course: Course) -> (k: int)
    requires
        course.is_complete(),
    ensures
        0 <= k < course.events.len(),
        course.stage(k) == Stage::Encryptor,
        course.at(k).wf(),
        course.at(k).plan == course.at(0).plan,
{
    let stage = Stage::Encryptor;
    assert forall|j: int|
        0 <= j < course.events.len() && (#[trigger] course.stage(j)).before(stage) implies
        !stage.before(course.stage(j + 1)) by {
        course_facts(course, j);
        course.at(j).items_fit();
    }
    course_facts(course, 0);
    let k = comes_to(course, stage, 0);
    course_facts(course, k);
    k
}

/// Every transparent key is taken up.
#[verifier::rlimit(40)]
pub proof fn reaches_key(course: Course, idx: usize) -> (k: int)
    requires
        course.is_complete(),
        idx < course.wallet.keys@.len(),
    ensures
        0 <= k < course.events.len(),
        course.stage(k) == (Stage::Key { idx }),
        course.at(k).wf(),
        course.at(k).plan == course.at(0).plan,
{
    let stage = (Stage::Key { idx });
    assert forall|j: int|
        0 <= j < course.events.len() && (#[trigger] course.stage(j)).before(stage) implies
        !stage.before(course.stage(j + 1)) by {
        course_facts(course, j);
        course.at(j).items_fit();
    }
    course_facts(course, 0);
    let k = comes_to(course, stage, 0);
    course_facts(course, k);
    k
}

/// The transparent keys are stored.
#[verifier::rlimit(40)]
pub proof fn reaches_store_keys(course: Course) -> (k: int)
    requires
        course.is_complete(),
    ensures
        0 <= k < course.events.len(),
        course.stage(k) == Stage::StoreKeys,
        course.at(k).wf(),
        course.at(k).plan == course.at(0).plan,
{
    let stage = Stage::StoreKeys;
    assert forall|j: int|
        0 <= j < course.events.len() && (#[trigger] course.stage(j)).before(stage) implies
        !stage.before(course.stage(j + 1)) by {
        course_facts(course, j);
        course.at(j).items_fit();
    }
    course_facts(course, 0);
    let k = comes_to(course, stage, 0);
    course_facts(course, k);
    k
}

/// The transparent keys are imported.
#[verifier::rlimit(40)]
pub proof fn reaches_import_keys(course: Course) -> (k: int)
    requires
        course.is_complete(),
    ensures
        0 <= k < course.events.len(),
        course.stage(k) == Stage::ImportKeys,
        course.at(k).wf(),
        course.at(k).plan == course.at(0).plan,
{
    let stage = Stage::ImportKeys;
    assert forall|j: int|
        0 <= j < course.events.len() && (#[trigger] course.stage(j)).before(stage) implies
        !stage.before(course.stage(j + 1)) by {
        course_facts(course, j);
        course.at(j).items_fit();
    }
    course_facts(course, 0);
    let k = comes_to(course, stage, 0);
    course_facts(course, k);
    k
}

/// Watch-only keys are imported if there is anything to watch.
#[verifier::rlimit(40)]
pub proof fn reaches_watched(course: Course) -> (k: int)
    requires
        course.is_complete(),
        course.at(0).plan.watch.pubkeys@.len() > 0 || course.at(0).plan.scripts.parsed@.len() > 0,
    ensures
        0 <= k < course.events.len(),
        course.stage(k) == Stage::ImportWatched,
        course.at(k).wf(),
        course.at(k).plan == course.at(0).plan,
{
    let stage = Stage::ImportWatched;
    assert forall|j: int|
        0 <= j < course.events.len() && (#[trigger] course.stage(j)).before(stage) implies
        !stage.before(course.stage(j + 1)) by {
        course_facts(course, j);
        course.at(j).items_fit();
    }
    course_facts(course, 0);
    let k = comes_to(course, stage, 0);
    course_facts(course, k);
    k
}

/// Every redeem script that can be read is taken up.
#[verifier::rlimit(40)]
pub proof fn reaches_script(course: Course, idx: usize) -> (k: int)
    requires
        course.is_complete(),
        idx < course.at(0).plan.scripts.parsed@.len(),
    ensures
        0 <= k < course.events.len(),
        course.stage(k) == (Stage::Script { idx }),
        course.at(k).wf(),
        course.at(k).plan == course.at(0).plan,
{
    let stage = (Stage::Script { idx });
    assert forall|j: int|
        0 <= j < course.events.len() && (#[trigger] course.stage(j)).before(stage) implies
        !stage.before(course.stage(j + 1)) by {
        course_facts(course, j);
        course.at(j).items_fit();
    }
    course_facts(course, 0);
    let k = comes_to(course, stage, 0);
    course_facts(course, k);
    k
}

/// It comes to the addresses of the wallet.
#[verifier::rlimit(40)]
pub proof fn reaches_receivers(course: Course) -> (k: int)
    requires
        course.is_complete(),
    ensures
        0 <= k < course.events.len(),
        course.stage(k) == Stage::Receivers,
        course.at(k).wf(),
        course.at(k).plan == course.at(0).plan,
{
    let stage = Stage::Receivers;
    assert forall|j: int|
        0 <= j < course.events.len() && (#[trigger] course.stage(j)).before(stage) implies
        !stage.before(course.stage(j + 1)) by {
        course_facts(course, j);
        course.at(j).items_fit();
    }
    course_facts(course, 0);
    let k = comes_to(course, stage, 0);
    course_facts(course, k);
    k
}

/// It comes to the transactions.
#[verifier::rlimit(40)]
pub proof fn reaches_buffer(course: Course) -> (k: int)
    requires
        course.is_complete(),
    ensures
        0 <= k < course.events.len(),
        course.stage(k) == Stage::Buffer,
        course.at(k).wf(),
        course.at(k).plan == course.at(0).plan,
{
    let stage = Stage::Buffer;
    assert forall|j: int|
        0 <= j < course.events.len() && (#[trigger] course.stage(j)).before(stage) implies
        !stage.before(course.stage(j + 1)) by {
        course_facts(course, j);
        course.at(j).items_fit();
    }
    course_facts(course, 0);
    let k = comes_to(course, stage, 0);
    course_facts(course, k);
    k
}

} // verus!
