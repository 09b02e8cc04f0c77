//! What the functions of the library answer, in terms of what they are asked.

use crate::accounts::{
    check_account_id, check_import, zcashd_seed_fingerprints, AccountLabel, AccountSource,
};
use crate::command::{begin_migration, export_seed, export_warning, ChainUse, ExportAccount};
use crate::dump::{
    choose_db_dump, dump_failure, name_records, overflowing_name, records_failure, strictness,
    wallet_path_base, DumpTool, PathBase, Strictness,
};
use crate::error::{
    ArgModel, CommandError, CommandErrorModel, Message, MessageModel, MigrateError, ZewifError,
};
use crate::exposure::{exposure_marks, AddressSet};
use crate::fingerprint;
use crate::fingerprint::SeedFingerprint;
use crate::mnemonic;
use crate::mnemonic::{parse_mnemonic, Mnemonic};
use crate::network::{check_network, Network, NetworkType};
use crate::sapling;
use crate::sapling::{
    account_lookup, key_origin, sapling_account, standalone, AccountLookup, Derivation,
    HdDerivation, SaplingAccount, SaplingKey,
};
use crate::text;
use crate::transactions;
use crate::transactions::{
    assumed_mempool_height, block_height, chain_birthday, consensus_height, decode_transactions,
    lookup_needed, no_scan_birthday, output_addresses, transaction_heights, usable_tip, BlockHash,
    DecodedTransaction, WalletTransaction,
};
use crate::transparent;
use crate::transparent::TransparentAddress;
use crate::transparent_keys;
use crate::transparent_keys::{convert_key_if_possible, KeyPair, TransparentKey};
use crate::watchonly;
use crate::watchonly::{
    classify, collect_redeem_scripts, collect_watch_scripts, RedeemScripts, WatchOutcome,
    WatchScriptKind, WatchScripts,
};
use vstd::prelude::*;

verus! {

/// A transaction that was mined is read under the rules of the height at which it was, whatever its
/// expiry and whatever the height of the mempool. Another is read under those of its expiry, if it
/// expires, and else under those of the mempool; it is only without one that it cannot be read.
pub proof fn mined_height_decides_the_rules(
    mined: Option<u32>,
    expiry_height: u32,
    mempool: Option<u32>,
    r: Result<u32, MigrateError>,
)
    requires
        call_ensures(consensus_height, (mined, expiry_height, mempool), r),
    ensures
        mined matches Some(height) ==> r == Ok::<u32, MigrateError>(height),
        mined is None && expiry_height > 0 ==> r == Ok::<u32, MigrateError>(expiry_height),
        mined is None && expiry_height == 0 && mempool is Some ==> r == Ok::<u32, MigrateError>(
            mempool.unwrap(),
        ),
        mined is None && expiry_height == 0 && mempool is None ==> r is Err
            && says(r->Err_0, "err-migrate-wallet-all-unmined"@),
{
}

/// Whether a failure is reported with the sentence of the given name, and nothing besides.
pub open spec fn says(error: MigrateError, id: Seq<char>) -> bool {
    error matches MigrateError::Wrapped(CommandError::Message(message)) && message@.id == id
        && message@.args.len() == 0
}

/// A transaction has the height at which its block was entered, whatever its other fields are, and
/// none if its block was not entered. Two transactions of one block have the same height.
pub proof fn heights_go_by_the_block(
    index: Vec<(BlockHash, u32)>,
    transactions: Vec<WalletTransaction>,
    r: Vec<Option<u32>>,
    i: int,
)
    requires
        call_ensures(transaction_heights, (&index, &transactions), r),
        0 <= i < transactions@.len(),
    ensures
        r@.len() == transactions@.len(),
        r@[i] matches Some(height) ==> index@.contains((transactions@[i].hash_block, height)),
        r@[i] is None ==> forall|j: int|
            0 <= j < index@.len() ==> (#[trigger] index@[j]).0 != transactions@[i].hash_block,
        forall|j: int|
            0 <= j < index@.len() && (#[trigger] index@[j]).0 == transactions@[i].hash_block && (
            forall|k: int|
                j < k < index@.len() ==> (#[trigger] index@[k]).0 != transactions@[i].hash_block)
                ==> r@[i] == Some(index@[j].1),
        forall|k: int|
            0 <= k < transactions@.len() && (#[trigger] transactions@[k]).hash_block
                == transactions@[i].hash_block ==> r@[k] == r@[i],
{
    transactions::mined_height_is_that_of_the_block(index@, transactions@, i);
    transactions::height_of_is_what_was_entered(index@, transactions@[i].hash_block);
}

/// A block has the height that it was last entered with.
pub proof fn blocks_have_the_height_entered(
    index: Vec<(BlockHash, u32)>,
    hash: BlockHash,
    r: Option<u32>,
)
    requires
        call_ensures(block_height, (&index, &hash), r),
    ensures
        r matches Some(height) ==> index@.contains((hash, height)),
        r is None ==> forall|i: int| 0 <= i < index@.len() ==> (#[trigger] index@[i]).0 != hash,
        forall|j: int|
            0 <= j < index@.len() && (#[trigger] index@[j]).0 == hash && (forall|k: int|
                j < k < index@.len() ==> (#[trigger] index@[k]).0 != hash) ==> r == Some(
                index@[j].1,
            ),
{
    transactions::height_of_is_what_was_entered(index@, hash);
}

/// A block is looked up exactly if it is not the null block and was not entered.
pub proof fn unknown_blocks_are_looked_up(
    index: Vec<(BlockHash, u32)>,
    transaction: WalletTransaction,
    r: bool,
)
    requires
        call_ensures(lookup_needed, (&index, &transaction), r),
    ensures
        r <==> !(forall|j: int| 0 <= j < 32 ==> transaction.hash_block.bytes@[j] == 0) && (forall|
            i: int,
        |
            0 <= i < index@.len() ==> (#[trigger] index@[i]).0 != transaction.hash_block),
{
    transactions::lookup_is_for_unknown_blocks(index@, transaction);
}

/// A tip is used unless it is the genesis block.
pub proof fn tips_above_genesis_are_used(tip: u32, r: Option<u32>)
    requires
        call_ensures(usable_tip, (tip,), r),
    ensures
        tip == 0 ==> r is None,
        tip > 0 ==> r == Some(tip),
{
}

/// The birthday on the chain is not after any mined transaction, except where that was before
/// Sapling, and is one of: the height of a mined transaction, the tip if nothing was mined, and the
/// activation of Sapling.
pub proof fn chain_birthday_is_earliest(
    heights: Vec<Option<u32>>,
    tip: Option<u32>,
    sapling_activation: u32,
    r: u32,
)
    requires
        call_ensures(chain_birthday, (&heights, tip, sapling_activation), r),
    ensures
        r >= sapling_activation,
        forall|i: int|
            0 <= i < heights@.len() && (#[trigger] heights@[i]) is Some ==> r
                <= heights@[i].unwrap() || r == sapling_activation,
        (exists|i: int| 0 <= i < heights@.len() && (#[trigger] heights@[i]) is Some) ==> r
            == sapling_activation || heights@.contains(Some(r)),
        (exists|i: int|
            0 <= i < heights@.len() && (#[trigger] heights@[i]) is Some && heights@[i].unwrap()
                <= sapling_activation) ==> r == sapling_activation,
        (forall|i: int|
            0 <= i < heights@.len() && (#[trigger] heights@[i]) is Some ==> heights@[i].unwrap()
                > sapling_activation) && (exists|i: int|
            0 <= i < heights@.len() && (#[trigger] heights@[i]) is Some) ==> r
            > sapling_activation,
        (forall|i: int| 0 <= i < heights@.len() ==> (#[trigger] heights@[i]) is None) ==> r == (
        if tip is Some && tip.unwrap() > sapling_activation {
            tip.unwrap()
        } else {
            sapling_activation
        }),
{
    transactions::earliest_is_least(heights@);
    if transactions::earliest(heights@) is Some {
        let k = heights@.index_of(transactions::earliest(heights@));
        assert(heights@[k] == transactions::earliest(heights@));
    }
}

/// The birthday off the chain is a thousand blocks before the first expiry, or the activation of
/// Sapling where that is later or where nothing expires.
pub proof fn no_scan_birthday_is_before_expiries(
    transactions: Vec<WalletTransaction>,
    sapling_activation: u32,
    r: u32,
)
    requires
        call_ensures(no_scan_birthday, (&transactions, sapling_activation), r),
    ensures
        r >= sapling_activation,
        forall|i: int|
            0 <= i < transactions@.len() && (#[trigger] transactions@[i]).expiry_height > 0 ==> r
                + 1000 <= transactions@[i].expiry_height || r == sapling_activation,
        r > sapling_activation ==> exists|i: int|
            0 <= i < transactions@.len() && (#[trigger] transactions@[i]).expiry_height == r + 1000,
        (exists|i: int|
            0 <= i < transactions@.len() && (#[trigger] transactions@[i]).expiry_height > 0)
            && (forall|i: int|
            0 <= i < transactions@.len() && (#[trigger] transactions@[i]).expiry_height > 0
                ==> transactions@[i].expiry_height > sapling_activation + 1000) ==> r
            > sapling_activation,
{
    let heights = transactions::expiries(transactions@);
    transactions::earliest_is_least(heights);
    assert forall|i: int| 0 <= i < transactions@.len() && (#[trigger] transactions@[i]).expiry_height
        > 0 implies transactions::earliest(heights) is Some && transactions::earliest(
        heights,
    ).unwrap() <= transactions@[i].expiry_height by {
        assert(heights[i] is Some);
    }
    if transactions::earliest(heights) is Some {
        let k = heights.index_of(transactions::earliest(heights));
        assert(heights[k] == transactions::earliest(heights));
        assert(transactions@[k].expiry_height > 0);
    }
}

/// The height of the mempool is one after the last at which a transaction was mined, and there is
/// none if none was.
pub proof fn mempool_comes_after_the_last(heights: Vec<Option<u32>>, r: Option<u32>)
    requires
        call_ensures(assumed_mempool_height, (&heights,), r),
    ensures
        r is None <==> forall|i: int| 0 <= i < heights@.len() ==> (#[trigger] heights@[i]) is None,
        forall|i: int|
            0 <= i < heights@.len() && (#[trigger] heights@[i]) is Some && heights@[i].unwrap()
                < u32::MAX ==> r.unwrap() > heights@[i].unwrap(),
        r matches Some(height) ==> height == u32::MAX || (height > 0 && heights@.contains(
            Some((height - 1) as u32),
        )),
        forall|i: int|
            0 <= i < heights@.len() && (#[trigger] heights@[i]) == Some(u32::MAX) ==> r == Some(
                u32::MAX,
            ),
{
    transactions::latest_is_greatest(heights@);
    if transactions::latest(heights@) is Some {
        let k = heights@.index_of(transactions::latest(heights@));
        assert(heights@[k] == transactions::latest(heights@));
    }
}

/// What is decoded is the wallet's transactions, in their order: each that was mined as its
/// encoding reads under the rules of that height, and each with that height.
pub proof fn mined_transactions_are_decoded_at_their_height(
    transactions: Vec<WalletTransaction>,
    heights: Vec<Option<u32>>,
    upgrades: crate::consensus::NetworkUpgrades,
    txs: Vec<DecodedTransaction>,
    i: int,
)
    requires
        call_ensures(decode_transactions, (&transactions, &heights, &upgrades), Ok(txs)),
        heights@.len() == transactions@.len(),
        0 <= i < transactions@.len(),
    ensures
        txs@.len() == transactions@.len(),
        txs@[i].mined_height == heights@[i],
        heights@[i] matches Some(height) ==> transactions::parsed_transaction(
            transactions@[i].raw@,
            crate::consensus::branch_at(upgrades, height),
        ) == Ok::<_, std::io::Error>(txs@[i].transaction),
        heights@[i] is None && transactions@[i].expiry_height > 0
            ==> transactions::parsed_transaction(
            transactions@[i].raw@,
            crate::consensus::branch_at(upgrades, transactions@[i].expiry_height),
        ) == Ok::<_, std::io::Error>(txs@[i].transaction),
        heights@[i] is None && transactions@[i].expiry_height == 0 ==> exists|k: int|
            #![trigger heights@[k]]
            0 <= k < heights@.len() && heights@[k] is Some && transactions::parsed_transaction(
                transactions@[i].raw@,
                crate::consensus::branch_at(
                    upgrades,
                    transactions::next_height(heights@[k].unwrap()),
                ),
            ) == Ok::<_, std::io::Error>(txs@[i].transaction) && forall|j: int|
                0 <= j < heights@.len() && (#[trigger] heights@[j]) is Some ==> heights@[j].unwrap()
                    <= heights@[k].unwrap(),
{
    transactions::decoded_transactions_are_those_of_the_wallet(
        transactions@,
        heights@,
        upgrades,
        txs,
        i,
    );
}

/// Where the transactions of the wallet cannot be decoded, it is for the first of them that cannot
/// be read under the rules that are its own, or that has no rules where nothing was mined.
pub proof fn undecodable_transactions_are_reported(
    transactions: Vec<WalletTransaction>,
    heights: Vec<Option<u32>>,
    upgrades: crate::consensus::NetworkUpgrades,
    e: MigrateError,
) -> (i: int)
    requires
        call_ensures(decode_transactions, (&transactions, &heights, &upgrades), Err(e)),
        heights@.len() == transactions@.len(),
    ensures
        0 <= i < transactions@.len(),
        heights@[i] matches Some(height) ==> (transactions::parsed_transaction(
            transactions@[i].raw@,
            crate::consensus::branch_at(upgrades, height),
        ) matches Err(cause) && e == MigrateError::Io(cause)),
        heights@[i] is None && transactions@[i].expiry_height > 0 ==> (transactions::parsed_transaction(
            transactions@[i].raw@,
            crate::consensus::branch_at(upgrades, transactions@[i].expiry_height),
        ) matches Err(cause) && e == MigrateError::Io(cause)),
        heights@[i] is None && transactions@[i].expiry_height == 0 ==> match e {
            MigrateError::Io(cause) => exists|k: int|
                #![trigger heights@[k]]
                0 <= k < heights@.len() && heights@[k] is Some && transactions::parsed_transaction(
                    transactions@[i].raw@,
                    crate::consensus::branch_at(upgrades, transactions::next_height(heights@[k].unwrap())),
                ) == Err::<zcash_primitives::transaction::Transaction, std::io::Error>(cause)
                    && forall|j: int|
                    0 <= j < heights@.len() && (#[trigger] heights@[j]) is Some ==> heights@[j].unwrap()
                        <= heights@[k].unwrap(),
            MigrateError::Wrapped(CommandError::Message(message)) => message@.id
                == "err-migrate-wallet-all-unmined"@ && message@.args.len() == 0 && forall|k: int|
                0 <= k < heights@.len() ==> (#[trigger] heights@[k]) is None,
            _ => false,
        },
        forall|j: int|
            0 <= j < i && (#[trigger] heights@[j]) is Some ==> transactions::parsed_transaction(
                transactions@[j].raw@,
                crate::consensus::branch_at(upgrades, heights@[j].unwrap()),
            ) is Ok,
        forall|j: int|
            0 <= j < i && (#[trigger] heights@[j]) is None && transactions@[j].expiry_height > 0
                ==> transactions::parsed_transaction(
                transactions@[j].raw@,
                crate::consensus::branch_at(upgrades, transactions@[j].expiry_height),
            ) is Ok,
{
    transactions::decoding_fails_at_the_first(transactions@, heights@, upgrades, e)
}

/// The addresses that are found in the transactions are those that an output of one of them pays
/// to. All of them have to be readable.
pub proof fn outputs_give_the_addresses(
    transactions: Vec<WalletTransaction>,
    addresses: AddressSet,
    address: TransparentAddress,
)
    requires
        call_ensures(output_addresses, (&transactions,), Ok(addresses)),
    ensures
        forall|i: int|
            0 <= i < transactions@.len() ==> transactions::parsed_transaction(
                (#[trigger] transactions@[i]).raw@,
                0,
            ) is Ok,
        addresses@.contains(address) <==> exists|i: int, j: int|
            #![trigger transactions::output_scripts(
                transactions::parsed_transaction(transactions@[i].raw@, 0)->Ok_0,
            )[j]]
            0 <= i < transactions@.len() && 0 <= j < transactions::output_scripts(
                transactions::parsed_transaction(transactions@[i].raw@, 0)->Ok_0,
            ).len() && transparent::pays_to(
                transactions::output_scripts(
                    transactions::parsed_transaction(transactions@[i].raw@, 0)->Ok_0,
                )[j],
                address,
            ),
{
    transactions::paid_addresses_are_those_of_outputs(transactions@, address);
    assert forall|i: int| 0 <= i < transactions@.len() implies transactions::parsed_transaction(
        (#[trigger] transactions@[i]).raw@,
        0,
    ) is Ok by {
        assert(transactions::is_readable(transactions@[i]));
    }
}

/// A wallet is migrated only into a wallet of its own network.
pub proof fn networks_have_to_be_the_same(
    wallet_network: Network,
    db_network: NetworkType,
    r: Result<NetworkType, MigrateError>,
)
    requires
        call_ensures(check_network, (wallet_network, db_network), r),
    ensures
        wallet_network is Main ==> (r is Ok <==> db_network is Main),
        wallet_network is Test ==> (r is Ok <==> db_network is Test),
        wallet_network is Regtest ==> (r is Ok <==> db_network is Regtest),
        r matches Ok(network) ==> network == db_network,
        r matches Err(e) ==> e == (MigrateError::NetworkMismatch { wallet_network, db_network }),
{
}

/// A Sapling key whose seed is one of the wallet's two, whichever of them it has, is not kept by
/// itself; one with another seed, or with none, is.
pub proof fn keys_of_neither_seed_stand_alone(
    key: Option<SeedFingerprint>,
    mnemonic_seed: Option<SeedFingerprint>,
    legacy_seed: Option<SeedFingerprint>,
    r: bool,
)
    requires
        call_ensures(standalone, (&key, &mnemonic_seed, &legacy_seed), r),
    ensures
        key is Some && mnemonic_seed is Some && key.unwrap()@ == mnemonic_seed.unwrap()@ ==> !r,
        key is Some && legacy_seed is Some && key.unwrap()@ == legacy_seed.unwrap()@ ==> !r,
        key is None ==> r,
        key is Some && (mnemonic_seed is None || key.unwrap()@ != mnemonic_seed.unwrap()@) && (
        legacy_seed is None || key.unwrap()@ != legacy_seed.unwrap()@) ==> r,
{
    if key is Some && mnemonic_seed is Some && key.unwrap()@ == mnemonic_seed.unwrap()@ {
        assert(key.unwrap().bytes =~= mnemonic_seed.unwrap().bytes);
    }
    if key is Some && legacy_seed is Some && key.unwrap()@ == legacy_seed.unwrap()@ {
        assert(key.unwrap().bytes =~= legacy_seed.unwrap().bytes);
    }
}

/// The origin of a key needs both its path and its seed. A path of ZIP 32 gives its account, and a
/// legacy path gives its address index under the legacy account.
pub proof fn origins_are_of_path_and_seed(
    parsed: Option<HdDerivation>,
    seed_fp: Option<SeedFingerprint>,
    r: Option<Derivation>,
)
    requires
        call_ensures(key_origin, (parsed, seed_fp), r),
    ensures
        r is Some <==> parsed is Some && seed_fp is Some,
        r matches Some(origin) ==> Some(origin.seed_fingerprint) == seed_fp,
        r matches Some(origin) ==> (parsed matches Some(HdDerivation::Zip32 { account_id })
            ==> origin.account_index == account_id && origin.legacy_address_index is None),
        r matches Some(origin) ==> (parsed matches Some(
            HdDerivation::Post470LegacySapling { address_index },
        ) ==> origin.account_index == 0x7FFF_FFFF && origin.legacy_address_index == Some(
            address_index,
        )),
{
}

/// The account of a Sapling key is that of its viewing key. Its derivation is known where both its
/// path and its seed are.
pub proof fn sapling_accounts_are_of_the_key(
    key: SaplingKey,
    network: NetworkType,
    r: Result<SaplingAccount, MigrateError>,
)
    requires
        call_ensures(sapling_account, (&key, network), r),
    ensures
        sapling::unified_key_of(sapling::full_viewing_key_of(key.extsk)) matches Err(e) ==> r
            == Err::<SaplingAccount, MigrateError>(MigrateError::KeyDerivation(e)),
        sapling::unified_key_of(sapling::full_viewing_key_of(key.extsk)) is Ok
            && key.hd_keypath is None ==> r is Ok && r->Ok_0.derivation is None,
        sapling::unified_key_of(sapling::full_viewing_key_of(key.extsk)) is Ok && (
        key.hd_keypath matches Some(path) && sapling::hd_path(network, path@) is Err) ==> r
            == Err::<SaplingAccount, MigrateError>(
            MigrateError::HdPath(sapling::hd_path(network, key.hd_keypath.unwrap()@)->Err_0),
        ),
        sapling::unified_key_of(sapling::full_viewing_key_of(key.extsk)) is Ok && (
        key.hd_keypath matches Some(path) && sapling::hd_path(network, path@) is Ok) ==> r is Ok
            && (r->Ok_0.derivation is Some <==> key.seed_fp is Some),
        r matches Ok(account) ==> Ok::<_, zcash_keys::keys::DerivationError>(account.ufvk)
            == sapling::unified_key_of(sapling::full_viewing_key_of(key.extsk)),
        r matches Ok(account) ==> (account.derivation matches Some(d) ==> Some(d.seed_fingerprint)
            == key.seed_fp && match sapling::hd_path(network, key.hd_keypath.unwrap()@)->Ok_0 {
            HdDerivation::Zip32 { account_id } => d.account_index == account_id
                && d.legacy_address_index is None,
            HdDerivation::Post470LegacySapling { address_index } => d.account_index == 0x7FFF_FFFF
                && d.legacy_address_index == Some(address_index),
        }),
{
}

/// The account of a Sapling key is looked for under the legacy account of its seed if that is
/// known, and by its viewing key if not.
pub proof fn accounts_are_looked_for_by_seed(
    seed_fp: Option<SeedFingerprint>,
    account: SaplingAccount,
    r: AccountLookup<'_>,
)
    requires
        call_ensures(account_lookup, (&seed_fp, &account), r),
    ensures
        seed_fp is None <==> r is ByViewingKey,
        r matches AccountLookup::ByViewingKey(ufvk) ==> *ufvk == account.ufvk,
        r matches AccountLookup::ByDerivation(d) ==> Some(d.seed_fingerprint) == seed_fp
            && d.account_index == 0x7FFF_FFFF,
        r matches AccountLookup::ByDerivation(d) ==> (account.derivation is None
            ==> d.legacy_address_index is None) && (account.derivation matches Some(known)
            ==> d.legacy_address_index == known.legacy_address_index),
{
}

/// A wallet is imported freely where none was before. Otherwise several have to be allowed, and
/// none that was may have its seed.
pub proof fn imports_besides_others_have_to_be_allowed(
    existing: Vec<SeedFingerprint>,
    allow_multiple: bool,
    seed: Option<SeedFingerprint>,
    r: Result<(), MigrateError>,
)
    requires
        call_ensures(check_import, (&existing, allow_multiple, &seed), r),
    ensures
        existing@.len() == 0 ==> r is Ok,
        existing@.len() > 0 && !allow_multiple ==> r is Err && r->Err_0 is MultiImportDisabled,
        existing@.len() > 0 && allow_multiple && seed is None ==> r is Ok,
        existing@.len() > 0 && allow_multiple && seed is Some ==> (r is Err <==> exists|i: int|
            0 <= i < existing@.len() && (#[trigger] existing@[i])@ == seed.unwrap()@),
        r matches Err(MigrateError::DuplicateImport(fp)) ==> seed is Some && fp@
            == seed.unwrap()@,
        r is Err && allow_multiple ==> r->Err_0 is DuplicateImport,
{
}

/// The seeds that have accounts are those of the accounts that come from the mnemonic of a zcashd
/// wallet, and of no others.
pub proof fn seeds_are_of_zcashd_accounts(
    sources: Vec<AccountSource>,
    r: Vec<SeedFingerprint>,
    fp: SeedFingerprint,
)
    requires
        call_ensures(zcashd_seed_fingerprints, (&sources,), r),
    ensures
        r@.contains(fp) <==> exists|i: int|
            #![trigger sources@[i]]
            0 <= i < sources@.len() && sources@[i] is Derived && sources@[i]->seed_fingerprint == fp
                && sources@[i]->key_source is Some && sources@[i]->key_source.unwrap()@
                == "zcashd_mnemonic"@,
{
    crate::accounts::found_seeds_are_of_zcashd_accounts(sources@, fp);
}

/// The account identifiers are the numbers of 31 bits.
pub proof fn account_identifiers_have_31_bits(id: u32, r: Result<u32, MigrateError>)
    requires
        call_ensures(check_account_id, (id,), r),
    ensures
        id <= 0x7FFF_FFFF ==> r == Ok::<u32, MigrateError>(id),
        id > 0x7FFF_FFFF ==> r == Err::<u32, MigrateError>(MigrateError::AccountIdInvalid(id)),
{
}

/// The name of an account says what it is, and ends in its number.
pub proof fn account_names_end_in_their_number(label: AccountLabel, r: String)
    requires
        call_ensures(AccountLabel::text, (label,), r),
    ensures
        label is LegacyTransparent ==> r@ == "zcashd post-v4.7.0 legacy transparent account "@
            + text::decimal(2147483647),
        label matches AccountLabel::Unified(id) ==> r@ == "zcashd imported unified account "@
            + text::decimal(id as nat),
        label matches AccountLabel::LegacySapling(idx) ==> r@ == "zcashd legacy sapling "@
            + text::decimal(idx as nat),
        label matches AccountLabel::ViewOnlySapling(idx) ==> r@
            == "zcashd imported view-only sapling "@ + text::decimal(idx as nat),
{
}

/// An entry is judged by the form of its script first: a key that is not compressed is left out
/// whether or not it can be read, and a compressed one is imported if it can be. A script hash is
/// left out unless the script is at hand.
pub proof fn entries_are_judged_by_form(
    kind: WatchScriptKind,
    reads: bool,
    redeemed: bool,
    r: WatchOutcome,
)
    requires
        call_ensures(classify, (&kind, reads, redeemed), r),
    ensures
        r is Imported <==> kind is P2PK && kind->P2PK_0@.len() == 33 && reads,
        r is Malformed <==> kind is P2PK && kind->P2PK_0@.len() == 33 && !reads,
        r is Uncompressed <==> kind is P2PK && kind->P2PK_0@.len() != 33,
        r is PublicKeyHashOnly <==> kind is P2PKH,
        r is Redeemed <==> kind is P2SH && redeemed,
        r is ScriptHashOnly <==> kind is P2SH && !redeemed,
        r is Nonstandard <==> kind is Other,
{
}

/// A transparent key is converted to the secret that its private key encodes, with the flag of the
/// form of its public key. The public key is looked at first.
pub proof fn keys_are_converted_faithfully(
    key: KeyPair,
    r: Option<Result<TransparentKey, MigrateError>>,
)
    requires
        call_ensures(convert_key_if_possible, (&key,), r),
    ensures
        transparent::public_key_of(key.pubkey@) matches Err(e) ==> r == Some(
            Err::<TransparentKey, MigrateError>(MigrateError::KeyError(e)),
        ),
        transparent::public_key_of(key.pubkey@) is Ok && r is Some
            && transparent_keys::der_secret(key.privkey@) is None ==> r.unwrap() is Err,
        transparent::public_key_of(key.pubkey@) is Ok && r is Some
            && transparent_keys::der_secret(key.privkey@) is Some ==> r.unwrap() is Ok
            && r.unwrap()->Ok_0.secret@ == transparent_keys::der_secret(key.privkey@).unwrap()
            && r.unwrap()->Ok_0.compressed == (key.pubkey@.len() == 33),
        key.privkey@.len() >= 7 ==> r is Some,
        key.privkey@.len() < 3 ==> r is Some,
{
}

/// The marks are those of the addresses that are both to be exposed and known, once each, and all
/// at the same height.
pub proof fn marks_are_of_known_addresses(
    to_expose: AddressSet,
    known: Vec<TransparentAddress>,
    height: u32,
    r: Vec<(TransparentAddress, u32)>,
    address: TransparentAddress,
)
    requires
        call_ensures(exposure_marks, (&to_expose, &known, height), r),
    ensures
        r@.contains((address, height)) <==> to_expose@.contains(address) && known@.contains(address),
        forall|i: int| 0 <= i < r@.len() ==> (#[trigger] r@[i]).1 == height,
        forall|i: int, j: int|
            0 <= i < j < r@.len() ==> (#[trigger] r@[i]).0 != (#[trigger] r@[j]).0,
{
    let marked = crate::exposure::marked(r@);
    assert(marked.to_set().contains(address) <==> marked.contains(address));
    assert(known@.to_set().contains(address) <==> known@.contains(address));
    if marked.contains(address) {
        let i = marked.index_of(address);
        assert(r@[i] == (address, height));
    }
    if r@.contains((address, height)) {
        let i = r@.index_of((address, height));
        assert(marked[i] == address);
    }
    assert forall|i: int, j: int| 0 <= i < j < r@.len() implies (#[trigger] r@[i]).0 != (
    #[trigger] r@[j]).0 by {
        assert(marked[i] != marked[j]);
    }
}

/// A wallet without a mnemonic is no failure, and neither is one with a readable one; an unreadable
/// one is.
pub proof fn absent_mnemonics_are_no_failure(
    text: &str,
    r: Result<Option<Mnemonic>, bip0039::Error>,
)
    requires
        call_ensures(parse_mnemonic, (text,), r),
    ensures
        text@.len() == 0 ==> r matches Ok(None),
        text@.len() > 0 && mnemonic::mnemonic_of(text@) is Err ==> r == Err::<
            Option<Mnemonic>,
            bip0039::Error,
        >(mnemonic::mnemonic_of(text@)->Err_0),
        text@.len() > 0 && mnemonic::mnemonic_of(text@) is Ok ==> r is Ok && r->Ok_0 is Some
            && r->Ok_0.unwrap()@ == mnemonic::mnemonic_of(text@)->Ok_0,
{
}

/// The base of a relative path is the data directory that was given, or else the default one.
pub proof fn relative_paths_have_a_base(
    is_relative: bool,
    has_datadir: bool,
    has_default: bool,
    r: Result<PathBase, MigrateError>,
)
    requires
        call_ensures(wallet_path_base, (is_relative, has_datadir, has_default), r),
    ensures
        !is_relative ==> r is Ok && r->Ok_0 is AsGiven,
        is_relative && has_datadir ==> r is Ok && r->Ok_0 is Datadir,
        is_relative && !has_datadir && has_default ==> r is Ok && r->Ok_0 is DefaultDatadir,
        is_relative && !has_datadir && !has_default ==> r is Err && r->Err_0 matches MigrateError::Wrapped(
            CommandError::Generic,
        ),
{
}

/// The tool of an installation is used where one was given, and has to be there.
pub proof fn given_installations_are_used(
    installation_given: bool,
    is_installed: bool,
    r: Result<DumpTool, MigrateError>,
)
    requires
        call_ensures(choose_db_dump, (installation_given, is_installed), r),
    ensures
        installation_given && is_installed ==> r is Ok && r->Ok_0 is Installed,
        installation_given && !is_installed ==> r is Err && says(
            r->Err_0,
            "err-migrate-wallet-db-dump-not-found"@,
        ),
        !installation_given ==> r is Ok && r->Ok_0 is AtHand,
{
}

/// A failed dump is reported as such, unless there is no tool at all.
pub proof fn failed_dumps_are_reported(
    tool: DumpTool,
    on_search_path: bool,
    wallet_path: Option<String>,
    error: String,
    r: MigrateError,
)
    requires
        call_ensures(dump_failure, (tool, on_search_path, wallet_path, error), r),
    ensures
        tool is Installed || on_search_path ==> r is Zewif && r->error_type is BdbDump
            && r->wallet_path == wallet_path && r->Zewif_error == error,
        tool is AtHand && !on_search_path ==> says(r, "err-migrate-wallet-db-dump-not-found"@),
{
}

/// Records that cannot be read are reported as such.
pub proof fn unreadable_records_are_reported(
    wallet_path: Option<String>,
    error: String,
    r: MigrateError,
)
    requires
        call_ensures(records_failure, (wallet_path, error), r),
    ensures
        r is Zewif,
        r->error_type is ZcashdDump,
        r->wallet_path == wallet_path,
        r->Zewif_error == error,
{
}

/// The names and the records are never both read strictly, and never both leniently.
pub proof fn either_names_or_records_are_strict(allow_warnings: bool, r: Strictness)
    requires
        call_ensures(strictness, (allow_warnings,), r),
    ensures
        r.names == allow_warnings,
        r.records == !allow_warnings,
{
}

/// A migration has to be acknowledged, and monitors the chain unless it is to do without.
pub proof fn migrations_have_to_be_acknowledged(
    acknowledged: bool,
    no_scan: bool,
    r: Result<ChainUse, CommandError>,
)
    requires
        call_ensures(begin_migration, (acknowledged, no_scan), r),
    ensures
        acknowledged && no_scan ==> r is Ok && r->Ok_0 is Unused,
        acknowledged && !no_scan ==> r is Ok && r->Ok_0 is Monitored,
        !acknowledged ==> r is Err && r->Err_0 is Message && r->Err_0->Message_0.id@
            == "migrate-alpha-code"@ && r->Err_0->Message_0@.args.len() == 0,
{
}

/// A mnemonic is exported for an account that is derived from one, and for no other.
pub proof fn derived_accounts_are_exported(
    account: ExportAccount,
    r: Result<SeedFingerprint, CommandError>,
)
    requires
        call_ensures(export_seed, (account,), r),
    ensures
        account matches ExportAccount::Derived(fp) ==> r == Ok::<SeedFingerprint, CommandError>(fp),
        account is Missing ==> r is Err && r->Err_0 is Message && r->Err_0->Message_0.id@
            == "err-account-not-found"@,
        account is Underived ==> r is Err && r->Err_0 is Message && r->Err_0->Message_0.id@
            == "err-account-no-payment-source"@,
{
}

/// An export warns exactly where the wallet holds a legacy seed or a standalone key, and then names
/// both files that have to be kept.
pub proof fn exports_warn_of_other_keys(
    legacy_seeds: usize,
    has_standalone_keys: bool,
    r: Vec<String>,
)
    requires
        call_ensures(export_warning, (legacy_seeds, has_standalone_keys), r),
    ensures
        r@.len() == 0 <==> legacy_seeds == 0 && !has_standalone_keys,
        r@.len() > 0 ==> text::texts(r@).contains(
            "WARNING: this mnemonic is NOT a complete backup of your wallet."@,
        ) && text::texts(r@).contains(
            "  - your Zallet wallet database (wallet.db in your datadir), and"@,
        ) && text::texts(r@).contains(
            "  - the age encryption identity file (the file named by the"@,
        ),
{
    let lines = text::texts(r@);
    assert(lines.len() == r@.len());
    if legacy_seeds > 0 || has_standalone_keys {
        assert(lines[1] == "WARNING: this mnemonic is NOT a complete backup of your wallet."@);
        assert(lines[5] == "  - your Zallet wallet database (wallet.db in your datadir), and"@);
        assert(lines[6] == "  - the age encryption identity file (the file named by the"@);
    }
}

/// Each failure is reported with a sentence of its own, and with what it speaks of.
pub proof fn failures_are_reported_as_what_they_are(
    value: MigrateError,
    cause: String,
    r: CommandError,
)
    requires
        call_ensures(MigrateError::report, (value, cause), r),
    ensures
        value is SeedNotAvailable ==> r@ == CommandErrorModel::Message(
            MessageModel {
                id: "err-migrate-wallet-seed-absent"@,
                args: Seq::<(Seq<char>, ArgModel)>::empty(),
            },
        ),
        value is MnemonicInvalid ==> r@ == CommandErrorModel::Message(
            MessageModel {
                id: "err-migrate-wallet-invalid-mnemonic"@,
                args: seq![("err"@, ArgModel::Text(cause@))],
            },
        ),
        value is KeyError ==> r@ == CommandErrorModel::Message(
            MessageModel {
                id: "err-migrate-wallet-key-decoding"@,
                args: seq![("err"@, ArgModel::Text(cause@))],
            },
        ),
        value is NetworkNotSupported ==> r@ == CommandErrorModel::Message(
            MessageModel {
                id: "err-migrate-wallet-regtest"@,
                args: Seq::<(Seq<char>, ArgModel)>::empty(),
            },
        ),
        value is Database ==> r@ == CommandErrorModel::Message(
            MessageModel {
                id: "err-migrate-wallet-storage"@,
                args: seq![("err"@, ArgModel::Text(cause@))],
            },
        ),
        value is Tree || value is Io || value is HdPath ==> r@ == CommandErrorModel::Message(
            MessageModel {
                id: "err-migrate-wallet-data-parse"@,
                args: seq![("err"@, ArgModel::Text(cause@))],
            },
        ),
        value is KeyDerivation ==> r@ == CommandErrorModel::Message(
            MessageModel {
                id: "err-migrate-wallet-key-data"@,
                args: seq![("err"@, ArgModel::Text(cause@))],
            },
        ),
        value is MultiImportDisabled ==> r@ == CommandErrorModel::Message(
            MessageModel {
                id: "err-migrate-wallet-multi-import-disabled"@,
                args: Seq::<(Seq<char>, ArgModel)>::empty(),
            },
        ),
        value matches MigrateError::AccountIdInvalid(id) ==> r@ == CommandErrorModel::Message(
            MessageModel {
                id: "err-migrate-wallet-invalid-account-id"@,
                args: seq![("account_id"@, ArgModel::Number(id))],
            },
        ),
        value matches MigrateError::DuplicateImport(fp) ==> r@ == CommandErrorModel::Message(
            MessageModel {
                id: "err-migrate-wallet-duplicate-import"@,
                args: seq![("seed_fp"@, ArgModel::Text(fingerprint::fingerprint_text(fp@)))],
            },
        ),
        value matches MigrateError::Wrapped(error) ==> r@ == error@,
        value matches MigrateError::Zewif { error_type, wallet_path, .. } ==> (
        r@ matches CommandErrorModel::Message(m) && m.args.len() == 2 && m.args[1] == (
            "err"@,
            ArgModel::Text(cause@),
        ) && m.args[0].0 == "path"@ && match wallet_path {
            Some(path) => m.args[0].1 == ArgModel::Text(path@),
            None => m.args[0].1 is Absent,
        } && match error_type {
            ZewifError::BdbDump => m.id == "err-migrate-wallet-bdb-parse"@,
            ZewifError::ZcashdDump => m.id == "err-migrate-wallet-db-dump"@,
        }),
        value matches MigrateError::NetworkMismatch { wallet_network, db_network } ==> (
        r@ matches CommandErrorModel::Message(m) && m.id == "err-migrate-wallet-network-mismatch"@
            && m.args.len() == 2 && m.args[0].0 == "wallet_network"@ && m.args[1].0
            == "zallet_network"@ && match wallet_network {
            Network::Main => m.args[0].1 == ArgModel::Text("main"@),
            Network::Test => m.args[0].1 == ArgModel::Text("test"@),
            Network::Regtest => m.args[0].1 == ArgModel::Text("regtest"@),
        } && match db_network {
            NetworkType::Main => m.args[1].1 == ArgModel::Text("main"@),
            NetworkType::Test => m.args[1].1 == ArgModel::Text("test"@),
            NetworkType::Regtest => m.args[1].1 == ArgModel::Text("regtest"@),
        }),
{
}

/// The failure beneath is reported in its own words, and a failure that has none beneath in no
/// words.
pub proof fn causes_are_told_in_their_own_words(value: MigrateError, r: String)
    requires
        call_ensures(MigrateError::cause_text, (&value,), r),
    ensures
        value is Zewif ==> r@ == value->Zewif_error@,
        value matches MigrateError::MnemonicInvalid(e) ==> r@ == crate::error::mnemonic_error_text(
            e,
        ),
        value matches MigrateError::KeyError(e) ==> r@ == crate::error::key_error_text(e),
        value matches MigrateError::KeyDerivation(e) ==> r@ == crate::error::derivation_error_text(
            e,
        ),
        value matches MigrateError::HdPath(e) ==> r@ == crate::error::path_error_text(e),
        value matches MigrateError::Database(e) ==> crate::error::database_error_words(e, r@),
        value matches MigrateError::Tree(e) ==> crate::error::tree_error_words(e, r@),
        value matches MigrateError::Io(e) ==> crate::error::io_error_words(e, r@),
{
}

/// A name overflows exactly if its length is written in full, and so close to the largest number of
/// the machine that the place after the name cannot be counted: with words of 64 bits after the mark
/// of eight bytes only, and with words of 32 bits after that of four bytes too.
pub proof fn only_huge_lengths_overflow(key: &[u8], r: bool)
    requires
        call_ensures(overflowing_name, (key,), r),
    ensures
        key@.len() < 5 ==> !r,
        key@.len() > 0 && key@[0] < 0xfe ==> !r,
        usize::MAX == 0xffff_ffff_ffff_ffff ==> (r <==> key@.len() >= 9 && key@[0] == 0xff && key@[1]
            >= 0xf7 && forall|i: int| 2 <= i < 9 ==> (#[trigger] key@[i]) == 0xff),
        usize::MAX == 0xffff_ffff && key@.len() >= 5 && key@[0] == 0xfe ==> (r <==> key@[1] >= 0xfb
            && forall|i: int| 2 <= i < 5 ==> (#[trigger] key@[i]) == 0xff),
        usize::MAX == 0xffff_ffff && key@.len() >= 9 && key@[0] == 0xff ==> (r <==> key@[1] >= 0xf7
            && (forall|i: int| 2 <= i < 5 ==> (#[trigger] key@[i]) == 0xff) && exists|i: int|
            5 <= i < 9 && (#[trigger] key@[i]) > 0),
{
    if key@.len() >= 9 {
        let low = crate::dump::number32(key@, 1);
        let high = crate::dump::number32(key@, 5);
        let n = crate::dump::number64(key@, 1);
        assert(n == low + 0x1_0000_0000 * high);
        assert(0 <= low < 0x1_0000_0000 && 0 <= high < 0x1_0000_0000);
        assert(n % 0x1_0000_0000 == low);
        assert(n % 0x1_0000_0000_0000_0000 == n);
        if high > 0 {
            assert(key@[5] > 0 || key@[6] > 0 || key@[7] > 0 || key@[8] > 0);
        }
        assert(key@[1] >= 0 && key@[2] <= 0xff && key@[3] <= 0xff && key@[4] <= 0xff);
        assert(key@[5] <= 0xff && key@[6] <= 0xff && key@[7] <= 0xff && key@[8] <= 0xff);
    } else if key@.len() >= 5 {
        assert(key@[1] >= 0 && key@[2] <= 0xff && key@[3] <= 0xff && key@[4] <= 0xff);
    }
}

/// The records of a dump are named, unless the length of a name overflows, or unless names are read
/// strictly, as they are with warnings allowed, and a record has none.
pub proof fn dumps_are_named(
    dump: zewif_zcashd::BDBDump,
    allow_warnings: bool,
    wallet_path: Option<String>,
    r: Result<zewif_zcashd::ZcashdDump, MigrateError>,
)
    requires
        call_ensures(name_records, (&dump, allow_warnings, wallet_path), r),
        forall|key: Seq<u8>| #[trigger]
            crate::dump::dump_keys(dump).contains(key) ==> key.len() > 0 && key[0] < 0xfe,
    ensures
        !allow_warnings ==> r is Ok,
        r is Err <==> allow_warnings && exists|key: Seq<u8>| #[trigger]
            crate::dump::dump_keys(dump).contains(key) && crate::dump::nameless(
                key,
                usize::MAX,
            ) is Some,
        r matches Ok(named) ==> crate::dump::records_of(dump, allow_warnings, usize::MAX) == Some(
            named,
        ),
        r matches Err(e) ==> (e matches MigrateError::Zewif {
            error_type,
            wallet_path: path,
            error,
        } && error_type is ZcashdDump && path == wallet_path && exists|key: Seq<u8>| #[trigger]
            crate::dump::dump_keys(dump).contains(key) && crate::dump::nameless(key, usize::MAX)
                == Some(error@)),
{
}

/// A dump with a name whose length overflows is refused, and what is said of it is that.
pub proof fn huge_lengths_are_refused(
    dump: zewif_zcashd::BDBDump,
    allow_warnings: bool,
    wallet_path: Option<String>,
    r: Result<zewif_zcashd::ZcashdDump, MigrateError>,
    key: Seq<u8>,
)
    requires
        call_ensures(name_records, (&dump, allow_warnings, wallet_path), r),
        crate::dump::dump_keys(dump).contains(key),
        usize::MAX == 0xffff_ffff_ffff_ffff,
        key.len() >= 9,
        key[0] == 0xff,
        key[1] >= 0xf7,
        forall|i: int| 2 <= i < 9 ==> (#[trigger] key[i]) == 0xff,
    ensures
        r matches Err(e) && (e matches MigrateError::Zewif {
            error_type,
            wallet_path: path,
            error,
        } && error_type is ZcashdDump && path == wallet_path && error@
            == "the length of a record name is out of range"@),
{
    let n = crate::dump::number64(key, 1);
    assert(key[2] == 0xff && key[3] == 0xff && key[4] == 0xff && key[5] == 0xff);
    assert(key[6] == 0xff && key[7] == 0xff && key[8] == 0xff);
    assert(n % 0x1_0000_0000_0000_0000 == n);
    assert(crate::dump::name_overflows(key));
}

/// Every failure is reported, with the words of the failure beneath, except where the database
/// speaks of a key scope that has no name.
pub proof fn failures_are_reported_in_the_words_of_their_cause(
    value: MigrateError,
    r: Option<CommandError>,
)
    requires
        call_ensures(CommandError::from_if_possible, (value,), r),
    ensures
        r is None <==> (value matches MigrateError::Database(e) && crate::error::gap_scope(e)
            == Some(crate::error::GapScope::Unnamed)),
        r matches Some(error) ==> match value {
            MigrateError::MnemonicInvalid(e) => error@ == CommandErrorModel::Message(
                MessageModel {
                    id: "err-migrate-wallet-invalid-mnemonic"@,
                    args: seq![("err"@, ArgModel::Text(crate::error::mnemonic_error_text(e)))],
                },
            ),
            MigrateError::KeyError(e) => error@ == CommandErrorModel::Message(
                MessageModel {
                    id: "err-migrate-wallet-key-decoding"@,
                    args: seq![("err"@, ArgModel::Text(crate::error::key_error_text(e)))],
                },
            ),
            MigrateError::KeyDerivation(e) => error@ == CommandErrorModel::Message(
                MessageModel {
                    id: "err-migrate-wallet-key-data"@,
                    args: seq![("err"@, ArgModel::Text(crate::error::derivation_error_text(e)))],
                },
            ),
            MigrateError::HdPath(e) => error@ == CommandErrorModel::Message(
                MessageModel {
                    id: "err-migrate-wallet-data-parse"@,
                    args: seq![("err"@, ArgModel::Text(crate::error::path_error_text(e)))],
                },
            ),
            MigrateError::Io(e) => error@ matches CommandErrorModel::Message(m) && m.id
                == "err-migrate-wallet-data-parse"@ && m.args.len() == 1 && m.args[0].0 == "err"@ && (
            m.args[0].1 matches ArgModel::Text(words) && crate::error::io_error_words(e, words)),
            MigrateError::Tree(e) => error@ matches CommandErrorModel::Message(m) && m.id
                == "err-migrate-wallet-data-parse"@ && m.args.len() == 1 && m.args[0].0 == "err"@ && (
            m.args[0].1 matches ArgModel::Text(words) && crate::error::tree_error_words(e, words)),
            MigrateError::Database(e) => error@ matches CommandErrorModel::Message(m) && m.id
                == "err-migrate-wallet-storage"@ && m.args.len() == 1 && m.args[0].0 == "err"@ && (
            m.args[0].1 matches ArgModel::Text(words) && crate::error::database_error_words(e, words)),
            MigrateError::Wrapped(raised) => error@ == raised@,
            MigrateError::Zewif { error: words, .. } => error@ matches CommandErrorModel::Message(m)
                && m.args.len() == 2 && m.args[1] == ("err"@, ArgModel::Text(words@)),
            _ => error@ is Message,
        },
{
}

/// The operator is told the fingerprint of the seed in its textual form.
pub proof fn seeds_are_announced_by_fingerprint(seed_fingerprint: SeedFingerprint, r: Message)
    requires
        call_ensures(crate::command::seed_announcement, (&seed_fingerprint,), r),
    ensures
        r@.id == "migrate-wallet-legacy-seed-fp"@,
        r@.args == seq![
            ("seed_fp"@, ArgModel::Text(fingerprint::fingerprint_text(seed_fingerprint@))),
        ],
{
}

/// The `db_dump` of an installation lies in the directory of its built tools.
pub proof fn installed_tools_lie_in_zcutil(r: [&'static str; 3])
    requires
        call_ensures(crate::dump::db_dump_location, (), r),
    ensures
        r@[0]@ == "zcutil"@,
        r@[1]@ == "bin"@,
        r@[2]@ == "db_dump"@,
{
    let steps = r@.map_values(|step: &'static str| step@);
    assert(steps[0] == r@[0]@);
    assert(steps[1] == r@[1]@);
    assert(steps[2] == r@[2]@);
}

/// The watch-only entries of a wallet are sorted by what they are: the keys of the P2PK entries
/// that are compressed and readable come in, in their order, and the others are counted by their
/// kind.
pub proof fn watched_entries_are_sorted(
    kinds: Vec<WatchScriptKind>,
    scripts: Vec<transparent::RedeemScript>,
    r: WatchScripts,
)
    requires
        call_ensures(collect_watch_scripts, (&kinds, &scripts), r),
    ensures
        watchonly::key_views(r.pubkeys@) == kinds@.filter(
            |kind: WatchScriptKind|
                kind is P2PK && kind->P2PK_0@.len() == 33 && transparent::public_key_of(
                    kind->P2PK_0@,
                ) is Ok,
        ).map_values(|kind: WatchScriptKind| kind->P2PK_0@),
        r.uncompressed == kinds@.filter(
            |kind: WatchScriptKind| kind is P2PK && kind->P2PK_0@.len() != 33,
        ).len(),
        r.malformed == kinds@.filter(
            |kind: WatchScriptKind|
                kind is P2PK && kind->P2PK_0@.len() == 33 && transparent::public_key_of(
                    kind->P2PK_0@,
                ) is Err,
        ).len(),
        r.public_key_hash_only == kinds@.filter(|kind: WatchScriptKind| kind is P2PKH).len(),
        r.redeemed + r.script_hash_only == kinds@.filter(
            |kind: WatchScriptKind| kind is P2SH,
        ).len(),
        r.redeemed == kinds@.filter(
            |kind: WatchScriptKind|
                kind is P2SH && exists|i: int|
                    #![trigger scripts@[i]]
                    0 <= i < scripts@.len() && kind->P2SH_0@ == transparent::script_hash(
                        scripts@[i]@,
                    ),
        ).len(),
        r.nonstandard == kinds@.filter(|kind: WatchScriptKind| kind is Other).len(),
{
    let views = watchonly::script_views(scripts@);
    watchonly::imported_keys_are_readable(kinds@, views);
    watchonly::counts_are_by_kind(kinds@, views);
    watchonly::watch_outcomes_add_up(kinds@, views);
    watchonly::kinds_add_up(kinds@);
    let addressed = |kind: WatchScriptKind|
        kind is P2SH && exists|i: int|
            0 <= i < views.len() && #[trigger] transparent::addresses_redeem_script(
                TransparentAddress::ScriptHash(kind->P2SH_0),
                views[i],
            );
    let hashed = |kind: WatchScriptKind|
        kind is P2SH && exists|i: int|
            #![trigger scripts@[i]]
            0 <= i < scripts@.len() && kind->P2SH_0@ == transparent::script_hash(scripts@[i]@);
    assert forall|kind: WatchScriptKind| #[trigger] addressed(kind) == hashed(kind) by {
        if kind is P2SH {
            if exists|i: int|
                #![trigger scripts@[i]]
                0 <= i < scripts@.len() && kind->P2SH_0@ == transparent::script_hash(
                    scripts@[i]@,
                ) {
                let i = choose|i: int|
                    #![trigger scripts@[i]]
                    0 <= i < scripts@.len() && kind->P2SH_0@ == transparent::script_hash(
                        scripts@[i]@,
                    );
                assert(transparent::addresses_redeem_script(
                    TransparentAddress::ScriptHash(kind->P2SH_0),
                    views[i],
                ));
            }
            if exists|i: int|
                0 <= i < views.len() && #[trigger] transparent::addresses_redeem_script(
                    TransparentAddress::ScriptHash(kind->P2SH_0),
                    views[i],
                ) {
                let i = choose|i: int|
                    0 <= i < views.len() && #[trigger] transparent::addresses_redeem_script(
                        TransparentAddress::ScriptHash(kind->P2SH_0),
                        views[i],
                    );
                assert(scripts@[i]@ == views[i]);
            }
        }
    }
    assert(addressed =~= hashed);
}

/// The redeem scripts of a wallet that can be read are kept, in their order, and the others are set
/// aside, in theirs.
pub proof fn redeem_scripts_are_parted(scripts: Vec<Vec<u8>>, r: RedeemScripts)
    requires
        call_ensures(collect_redeem_scripts, (&scripts,), r),
    ensures
        watchonly::script_views(r.parsed@) == transparent::script_bytes(scripts@).filter(
            |script: Seq<u8>| transparent::is_redeem_script(script),
        ),
        transparent::script_bytes(r.unparseable@) == transparent::script_bytes(scripts@).filter(
            |script: Seq<u8>| !transparent::is_redeem_script(script),
        ),
{
}

} // verus!
