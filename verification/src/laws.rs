//! What holds of every migration, whatever the wallet and whatever the outcome of what it asks for.

use crate::accounts;
use crate::accounts::AccountSource;
use crate::action::{Action, Event, Stage};
use crate::error::MigrateError;
use crate::exposure;
use crate::fingerprint::SeedFingerprint;
use crate::migration;
use crate::migration::Migration;
use crate::network;
use crate::summary::MigrationSummary;
use crate::transactions;
use crate::transactions::BlockHash;
use crate::transparent;
use crate::transparent::TransparentAddress;
use crate::watchonly;
use crate::watchonly::WatchScriptKind;
use vstd::prelude::*;

verus! {

/// Every step leads to a later stage, so that no stage is come to twice.
pub proof fn step_goes_forward(
    pre: Migration,
    event: Event,
    r: Result<(), MigrateError>,
    post: Migration,
)
    requires
        pre.wf(),
        pre.awaits(event),
        Migration::step(pre, event, r, post),
        r is Ok,
    ensures
        pre.progress.stage.before(post.progress.stage),
{
    pre.items_fit();
}

/// How many places there can be within a phase of the migration.
pub open spec fn places(migration: Migration) -> nat {
    4 * (migration.plan.wallet.transactions@.len() + migration.plan.wallet.unified_accounts@.len()
        + migration.plan.wallet.sapling_keys@.len()
        + migration.plan.wallet.sapling_viewing_keys@.len() + migration.plan.wallet.keys@.len()
        + migration.plan.scripts.parsed@.len()) + 1
}

/// How many stages can come after that of the migration.
pub open spec fn stages_left(migration: Migration) -> int {
    (25 - migration.progress.stage.phase()) * places(migration) - migration.progress.stage.place()
        - 1
}

/// Every migration comes to an end: with every step that succeeds there are fewer stages left, and
/// their number is never negative.
pub proof fn migration_ends(
    pre: Migration,
    event: Event,
    r: Result<(), MigrateError>,
    post: Migration,
)
    requires
        pre.wf(),
        pre.awaits(event),
        Migration::step(pre, event, r, post),
        post.wf(),
        r is Ok,
    ensures
        0 <= stages_left(post) < stages_left(pre),
{
    step_goes_forward(pre, event, r, post);
    step_keeps(pre, event, r, post);
    let n = places(pre);
    let (p, q) = (pre.progress.stage.phase(), post.progress.stage.phase());
    assert(0 <= q <= 24);
    assert(0 <= pre.progress.stage.place() < n);
    assert(0 <= post.progress.stage.place() < n);
    assert((25 - q) * n >= n) by (nonlinear_arith)
        requires
            q <= 24,
            n >= 1,
    ;
    if p < q {
        assert((25 - p) * n >= (25 - q) * n + n) by (nonlinear_arith)
            requires
                p + 1 <= q,
                n >= 1,
        ;
    }
}

/// What a migration is about never changes, a failure changes nothing at all, and an address that
/// is to be exposed remains so.
pub proof fn step_keeps(
    pre: Migration,
    event: Event,
    r: Result<(), MigrateError>,
    post: Migration,
)
    requires
        pre.wf(),
        pre.awaits(event),
        Migration::step(pre, event, r, post),
    ensures
        post.plan == pre.plan,
        r is Err ==> post == pre,
        pre.progress.to_expose@.subset_of(post.progress.to_expose@),
{
}

/// What the migration is told settles the step: from the same event, two steps both succeed or both
/// fail, and if they succeed they come to the same stage.
pub proof fn step_is_settled(
    pre: Migration,
    event: Event,
    ra: Result<(), MigrateError>,
    a: Migration,
    rb: Result<(), MigrateError>,
    b: Migration,
)
    requires
        pre.wf(),
        pre.awaits(event),
        Migration::step(pre, event, ra, a),
        Migration::step(pre, event, rb, b),
    ensures
        ra is Ok <==> rb is Ok,
        a.progress.stage == b.progress.stage,
        a.progress.to_expose@ == b.progress.to_expose@,
        a.progress.birthday == b.progress.birthday,
        a.progress.heights@ == b.progress.heights@,
{
    if pre.progress.stage == Stage::Buffer && (ra is Ok) != (rb is Ok) {
        transactions::decoding_is_settled(
            pre.plan.wallet.transactions@,
            pre.progress.heights@,
            pre.plan.upgrades,
            if ra is Ok {
                a.progress.decoded
            } else {
                b.progress.decoded
            },
            if ra is Ok {
                rb->Err_0
            } else {
                ra->Err_0
            },
        );
    }
    if a.progress.to_expose@ != b.progress.to_expose@ {
        match (pre.progress.stage, event) {
            (Stage::Script { idx }, Event::ScriptImported(true)) => {
                let script = pre.plan.scripts.parsed@[idx as int]@;
                let x = choose|address: TransparentAddress| #[trigger]
                    transparent::addresses_redeem_script(address, script)
                        && a.progress.to_expose@ == pre.progress.to_expose@.insert(address);
                let y = choose|address: TransparentAddress| #[trigger]
                    transparent::addresses_redeem_script(address, script)
                        && b.progress.to_expose@ == pre.progress.to_expose@.insert(address);
                assert(x->ScriptHash_0 =~= y->ScriptHash_0);
            },
            _ => {},
        }
    }
}

/// Without a chain, the chain is never asked for anything.
pub proof fn no_scan_asks_nothing_of_the_chain(migration: Migration)
    requires
        migration.wf(),
        migration.plan.options.no_scan,
    ensures
        !(migration.pending() is ReadTip),
        !(migration.pending() is FindBlock),
        !(migration.pending() is ReadTreeState),
{
}

/// Without a chain, no transaction counts as mined.
pub proof fn no_scan_finds_nothing_mined(migration: Migration, i: int)
    requires
        migration.wf(),
        migration.plan.options.no_scan,
        migration.progress.stage.phase() >= 4,
        0 <= i < migration.plan.wallet.transactions@.len(),
    ensures
        migration.progress.heights@[i] is None,
{
}

/// A transaction that was unmined when the zcashd wallet was last written does not count as mined.
pub proof fn unmined_stays_unmined(migration: Migration, i: int)
    requires
        migration.wf(),
        migration.progress.stage.phase() >= 4,
        0 <= i < migration.plan.wallet.transactions@.len(),
        migration.plan.wallet.transactions@[i].hash_block.is_null(),
    ensures
        migration.progress.heights@[i] is None,
{
    transactions::height_of_absent(
        migration.progress.block_index@,
        migration.plan.wallet.transactions@[i].hash_block,
    );
}

/// The height of a block, once it is known, is not asked for again and remains what it is.
pub proof fn block_heights_are_kept(
    pre: Migration,
    event: Event,
    r: Result<(), MigrateError>,
    post: Migration,
    hash: BlockHash,
)
    requires
        pre.wf(),
        pre.awaits(event),
        Migration::step(pre, event, r, post),
        transactions::height_of(pre.progress.block_index@, hash) is Some,
    ensures
        pre.pending() matches Action::FindBlock { hash: asked } ==> asked != hash,
        transactions::height_of(post.progress.block_index@, hash) == transactions::height_of(
            pre.progress.block_index@,
            hash,
        ),
{
    match (pre.progress.stage, event) {
        (Stage::Block { tx }, Event::BlockFound(Some(height))) => {
            transactions::height_of_push(
                pre.progress.block_index@,
                pre.plan.wallet.transactions@[tx as int].hash_block,
                height,
                hash,
            );
        },
        _ => {},
    }
}

/// Nothing is imported into the wallet database unless the wallet belongs to its network, and may
/// be imported besides those that were.
pub proof fn imports_are_allowed(migration: Migration)
    requires
        migration.wf(),
        migration.pending() is ImportHdAccount || migration.pending() is ImportViewingKey
            || migration.pending() is ImportPubkeys || migration.pending() is ImportScript
            || migration.pending() is StoreTransactions,
    ensures
        network::same_network(migration.plan.wallet.network, migration.plan.network),
        accounts::is_import_allowed(
            migration.progress.existing@,
            migration.plan.options.allow_multiple_wallet_imports,
            migration::seed_of(migration.progress.mnemonic),
        ),
{
}

/// A wallet whose seed has an account already is not imported again: where the wallet database has
/// an account that comes from the mnemonic of a zcashd wallet, and the mnemonic of this wallet has
/// the same seed, the migration fails once its mnemonic is stored.
pub proof fn migrated_wallet_is_refused(
    sources: Seq<AccountSource>,
    i: int,
    pre: Migration,
    seed_fp: SeedFingerprint,
    r: Result<(), MigrateError>,
    post: Migration,
)
    requires
        pre.wf(),
        pre.awaits(Event::MnemonicStored(seed_fp)),
        pre.progress.stage == Stage::StoreMnemonic,
        Migration::step(pre, Event::MnemonicStored(seed_fp), r, post),
        pre.progress.existing@ == accounts::zcashd_fingerprints(sources),
        0 <= i < sources.len(),
        accounts::is_zcashd_sourced(sources[i]),
        Some(accounts::source_fingerprint(sources[i])@) == migration::seed_of(
            pre.progress.mnemonic,
        ),
    ensures
        r is Err,
        post == pre,
        if pre.plan.options.allow_multiple_wallet_imports {
            r->Err_0 is DuplicateImport
        } else {
            r->Err_0 is MultiImportDisabled
        },
{
    accounts::zcashd_sourced_is_found(sources, i);
}

/// Every account that is derived from a seed is marked as coming from the mnemonic of a zcashd
/// wallet, so that another migration finds it.
pub proof fn derived_accounts_are_zcashd_sourced(
    migration: Migration,
    seed_fingerprint: SeedFingerprint,
    name: String,
)
    requires
        migration.wf(),
        migration.pending() matches Action::ImportHdAccount { key_source, .. } && name@
            == key_source@,
    ensures
        accounts::is_zcashd_sourced(
            AccountSource::Derived { seed_fingerprint, key_source: Some(name) },
        ),
{
}

/// An account is imported exactly if it was not found.
pub proof fn accounts_are_imported_once(
    pre: Migration,
    found: bool,
    r: Result<(), MigrateError>,
    post: Migration,
)
    requires
        pre.wf(),
        pre.awaits(Event::AccountFound(found)),
        Migration::step(pre, Event::AccountFound(found), r, post),
    ensures
        r is Ok,
        found ==> post.pending() is Proceed,
        !found ==> post.pending() is ImportHdAccount || post.pending() is ImportViewingKey,
{
}

/// Every account identifier that an account is imported under is a ZIP 32 account identifier.
pub proof fn imported_account_ids_are_valid(migration: Migration)
    requires
        migration.wf(),
    ensures
        migration.pending() matches Action::ImportHdAccount { account_id, .. }
            ==> accounts::is_account_id(account_id),
{
}

/// The transparent keys of a wallet go through exactly if there is something to hold in the legacy
/// account and a seed to derive it from; otherwise the migration ends for want of a seed.
pub proof fn transparent_keys_need_a_seed(
    pre: Migration,
    event: Event,
    r: Result<(), MigrateError>,
    post: Migration,
)
    requires
        pre.wf(),
        pre.awaits(event),
        Migration::step(pre, event, r, post),
        pre.progress.stage == Stage::StoreKeys,
    ensures
        r is Ok <==> pre.plan.wants_legacy_account() && pre.plan.has_seed(),
        r matches Err(e) ==> e is SeedNotAvailable,
{
}

/// A tree state of the height that was asked for gives the accounts the birthday that was sought,
/// which is not before the activation of Sapling, nor after any transaction that was mined since
/// then.
pub proof fn birthday_is_as_sought(
    pre: Migration,
    height: u32,
    r: Result<(), MigrateError>,
    post: Migration,
)
    requires
        pre.wf(),
        pre.awaits(Event::TreeState(Some(height))),
        Migration::step(pre, Event::TreeState(Some(height)), r, post),
        pre.pending() matches Action::ReadTreeState { height: asked, .. } && asked == height,
        pre.birthday_sought() > 0,
    ensures
        post.progress.birthday == pre.birthday_sought(),
        post.progress.birthday >= pre.plan.upgrades.sapling.unwrap(),
        forall|i: int|
            0 <= i < pre.progress.heights@.len() && #[trigger] pre.progress.heights@[i] is Some
                && pre.progress.heights@[i].unwrap() >= pre.plan.upgrades.sapling.unwrap()
                ==> post.progress.birthday <= pre.progress.heights@[i].unwrap(),
{
    transactions::chain_birthday_bounds(
        pre.progress.heights@,
        pre.progress.tip,
        pre.plan.upgrades.sapling.unwrap(),
    );
}

/// Without a chain, the accounts have a birthday that is not before the activation of Sapling.
pub proof fn no_scan_birthday_is_after_sapling(
    pre: Migration,
    r: Result<(), MigrateError>,
    post: Migration,
)
    requires
        pre.wf(),
        pre.awaits(Event::Proceeded),
        Migration::step(pre, Event::Proceeded, r, post),
        pre.progress.stage == Stage::Birthday,
        pre.plan.options.no_scan,
    ensures
        post.progress.birthday == transactions::next_height(pre.birthday_sought()),
        post.progress.birthday >= pre.plan.upgrades.sapling.unwrap(),
{
    transactions::no_scan_birthday_bounds(
        pre.plan.wallet.transactions@,
        pre.plan.upgrades.sapling.unwrap(),
    );
}

/// A watched script that pays to one of the redeem scripts is not among those that were left out.
pub proof fn redeemed_scripts_are_not_skipped(migration: Migration, i: int, hash: [u8; 20], j: int)
    requires
        migration.wf(),
        0 <= i < migration.plan.wallet.watch_scripts@.len(),
        migration.plan.wallet.watch_scripts@[i] == WatchScriptKind::P2SH(hash),
        0 <= j < migration.plan.scripts.parsed@.len(),
        transparent::addresses_redeem_script(
            TransparentAddress::ScriptHash(hash),
            migration.plan.scripts.parsed@[j]@,
        ),
    ensures
        watchonly::watch_outcome(
            migration.plan.wallet.watch_scripts@[i],
            watchonly::script_views(migration.plan.scripts.parsed@),
        ) is Redeemed,
{
    let scripts = watchonly::script_views(migration.plan.scripts.parsed@);
    assert(transparent::addresses_redeem_script(
        TransparentAddress::ScriptHash(hash),
        scripts[j],
    ));
}

/// A Sapling key that no seed is known for is stored by itself, whichever seeds the wallet has.
pub proof fn keys_without_a_seed_are_stored(migration: Migration, idx: usize)
    requires
        migration.wf(),
        migration.progress.stage == (Stage::SaplingStandalone { idx }),
        migration.plan.wallet.sapling_keys@[idx as int].seed_fp is None,
    ensures
        migration.pending() == (Action::StoreSaplingKey {
            extsk: &migration.plan.wallet.sapling_keys@[idx as int].extsk,
        }),
{
}

/// The address of a redeem script is to be exposed once the script is imported, and only then.
pub proof fn imported_scripts_are_exposed(
    pre: Migration,
    imported: bool,
    r: Result<(), MigrateError>,
    post: Migration,
    idx: usize,
    address: TransparentAddress,
)
    requires
        pre.wf(),
        pre.progress.stage == (Stage::Script { idx }),
        pre.awaits(Event::ScriptImported(imported)),
        Migration::step(pre, Event::ScriptImported(imported), r, post),
        transparent::addresses_redeem_script(address, pre.plan.scripts.parsed@[idx as int]@),
    ensures
        r is Ok,
        imported ==> post.progress.to_expose@.contains(address),
        !imported ==> post.progress.to_expose@ == pre.progress.to_expose@,
{
    if imported {
        let script = pre.plan.scripts.parsed@[idx as int]@;
        let x = choose|x: TransparentAddress| #[trigger]
            transparent::addresses_redeem_script(x, script) && post.progress.to_expose@
                == pre.progress.to_expose@.insert(x);
        assert(x->ScriptHash_0 =~= address->ScriptHash_0);
    }
}

/// Of the addresses that the wallet knows, exactly these are marked: those of the transparent keys,
/// of the watch-only keys and of the redeem scripts that were imported, and without a chain those
/// that a transaction pays to. Each is marked once, at the birthday of the accounts.
pub proof fn imported_addresses_are_marked(
    pre: Migration,
    known: Vec<TransparentAddress>,
    r: Result<(), MigrateError>,
    post: Migration,
    address: TransparentAddress,
)
    requires
        pre.wf(),
        pre.awaits(Event::Receivers(known)),
        Migration::step(pre, Event::Receivers(known), r, post),
    ensures
        exposure::marked(post.progress.marks@).no_duplicates(),
        exposure::marked(post.progress.marks@).contains(address) <==> known@.contains(address) && (
        exposure::key_addresses(watchonly::key_views(pre.progress.pubkeys@)).contains(address)
            || exposure::key_addresses(watchonly::key_views(pre.plan.watch.pubkeys@)).contains(
            address,
        ) || migration::script_addresses(
            watchonly::script_views(pre.plan.scripts.parsed@),
            pre.progress.scripts_imported@,
        ).contains(address) || (pre.plan.options.no_scan && transactions::paid_addresses(
            pre.plan.wallet.transactions@,
        ).contains(address))),
        forall|i: int|
            0 <= i < post.progress.marks@.len() ==> (#[trigger] post.progress.marks@[i]).1
                == pre.progress.birthday,
{
    let marked = exposure::marked(post.progress.marks@);
    assert(marked.to_set() == pre.progress.to_expose@.intersect(known@.to_set()));
    assert(marked.to_set().contains(address) <==> marked.contains(address));
    assert(known@.to_set().contains(address) <==> known@.contains(address));
}

/// The summary of a migration accounts for every watch-only entry of the wallet, apart from those
/// that come in as redeem scripts, for every redeem script, and for every Sapling key that belongs
/// to neither seed.
pub proof fn summary_adds_up(migration: Migration, summary: MigrationSummary)
    requires
        migration.wf(),
        migration.progress.stage == Stage::Finished,
        migration.summarizes(summary),
    ensures
        summary.watchonly_pubkeys + summary.skipped_uncompressed_pubkeys
            + summary.skipped_p2pkh_address_only + summary.skipped_p2sh_address_only
            + summary.skipped_nonstandard + summary.err_malformed_pubkeys
            + migration.plan.watch.redeemed == migration.plan.wallet.watch_scripts@.len(),
        summary.watchonly_scripts + summary.skipped_unsupported_scripts
            + summary.err_unparseable_scripts == migration.plan.wallet.redeem_scripts@.len(),
        summary.sapling_standalone == migration::standalone_count(
            migration.plan.wallet.sapling_keys@,
            migration.progress.mnemonic_fp,
            migration.progress.legacy_fp,
        ),
        summary.mnemonic_seed == (migration.plan.wallet.mnemonic@.len() > 0),
        summary.legacy_hd_seed == (migration.plan.wallet.legacy_seed is Some),
{
    let kinds = migration.plan.wallet.watch_scripts@;
    let scripts = transparent::script_bytes(migration.plan.wallet.redeem_scripts@);
    watchonly::watch_outcomes_add_up(
        kinds,
        watchonly::script_views(migration.plan.scripts.parsed@),
    );
    watchonly::redeem_scripts_add_up(scripts);
    assert(watchonly::key_views(migration.plan.watch.pubkeys@).len()
        == migration.plan.watch.pubkeys@.len());
    assert(watchonly::script_views(migration.plan.scripts.parsed@).len()
        == migration.plan.scripts.parsed@.len());
    assert(transparent::script_bytes(migration.plan.scripts.unparseable@).len()
        == migration.plan.scripts.unparseable@.len());
}

} // verus!
