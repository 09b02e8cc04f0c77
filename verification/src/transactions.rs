//! The transactions of a zcashd wallet: when they were mined, the birthday that follows, the rules
//! under which they are read, and the addresses that they pay to.

use crate::consensus;
use crate::consensus::{branch_for_height, NetworkUpgrades, SPROUT_BRANCH};
use crate::error;
use crate::error::{Message, MigrateError};
use crate::exposure::AddressSet;
use crate::text::bytes_equal;
use crate::transparent;
use crate::transparent::{from_script_pubkey, TransparentAddress};
use vstd::prelude::*;

verus! {

/// The hash of a block.
#[derive(Clone, Copy, Debug)]
pub struct BlockHash {
    pub bytes: [u8; 32],
}

impl BlockHash {
    /// The hash of only zeros, which stands for no block.
    pub open spec fn is_null(self) -> bool {
        forall|i: int| 0 <= i < 32 ==> #[trigger] self.bytes@[i] == 0
    }

    /// Whether this is the hash of only zeros, which stands for no block.
    pub fn null(&self) -> (r: bool)
        ensures
            r == self.is_null(),
    {
        let mut i: usize = 0;
        while i < 32
            invariant
                i <= 32,
                forall|j: int| 0 <= j < i ==> #[trigger] self.bytes@[j] == 0,
            decreases 32 - i,
        {
            if self.bytes[i] != 0 {
                return false;
            }
            i = i + 1;
        }
        true
    }

    /// Whether two hashes are the same.
    pub fn same(&self, other: &BlockHash) -> (r: bool)
        ensures
            r == (*self == *other),
    {
        let r: bool = bytes_equal(self.bytes.as_slice(), other.bytes.as_slice());
        proof {
            if self.bytes@ == other.bytes@ {
                assert(self.bytes =~= other.bytes);
            }
        }
        r
    }
}

/// A transaction of a zcashd wallet: the block that it was mined in, which is the null hash for
/// one that was unmined when the wallet was last written, the height at which it expires, which is
/// zero for one that does not, and its encoding.
#[derive(Debug)]
pub struct WalletTransaction {
    pub hash_block: BlockHash,
    pub expiry_height: u32,
    pub raw: Vec<u8>,
}

/// The height of a block, in an index of blocks of the main chain.
pub open spec fn height_of(index: Seq<(BlockHash, u32)>, hash: BlockHash) -> Option<u32>
    decreases index.len(),
{
    if index.len() == 0 {
        None
    } else if index.last().0 == hash {
        Some(index.last().1)
    } else {
        height_of(index.drop_last(), hash)
    }
}

/// The height of a block, in an index of blocks of the main chain.
pub fn block_height(index: &Vec<(BlockHash, u32)>, hash: &BlockHash) -> (r: Option<u32>)
    ensures
        r == height_of(index@, *hash),
{
    let mut i: usize = index.len();
    proof {
        assert(index@.take(i as int) =~= index@);
    }
    while i > 0
        invariant
            i <= index@.len(),
            height_of(index@, *hash) == height_of(index@.take(i as int), *hash),
        decreases i,
    {
        let ghost head = index@.take(i as int);
        proof {
            assert(head.last() == index@[i - 1]);
            assert(head.drop_last() =~= index@.take(i - 1));
        }
        if index[i - 1].0.same(hash) {
            return Some(index[i - 1].1);
        }
        i = i - 1;
    }
    None
}

/// A block that is added to an index has its height there, and the others keep theirs.
pub proof fn height_of_push(
    index: Seq<(BlockHash, u32)>,
    block: BlockHash,
    height: u32,
    hash: BlockHash,
)
    ensures
        height_of(index.push((block, height)), hash) == if hash == block {
            Some(height)
        } else {
            height_of(index, hash)
        },
{
    assert(index.push((block, height)).drop_last() =~= index);
}

/// A block that an index does not hold has no height there.
pub proof fn height_of_absent(index: Seq<(BlockHash, u32)>, hash: BlockHash)
    requires
        forall|i: int| 0 <= i < index.len() ==> (#[trigger] index[i]).0 != hash,
    ensures
        height_of(index, hash) is None,
    decreases index.len(),
{
    if index.len() > 0 {
        assert(index[index.len() - 1].0 != hash);
        assert forall|i: int| 0 <= i < index.drop_last().len() implies (
        #[trigger] index.drop_last()[i]).0 != hash by {
            assert(index[i].0 != hash);
        }
        height_of_absent(index.drop_last(), hash);
    }
}

/// Whether the height of the block of a transaction has to be looked up: the transaction was mined,
/// and no block of the main chain is known yet under the hash.
pub open spec fn needs_lookup(index: Seq<(BlockHash, u32)>, transaction: WalletTransaction) -> bool {
    !transaction.hash_block.is_null() && height_of(index, transaction.hash_block) is None
}

/// Whether the height of the block of a transaction has to be looked up.
pub fn lookup_needed(index: &Vec<(BlockHash, u32)>, transaction: &WalletTransaction) -> (r: bool)
    ensures
        r == needs_lookup(index@, *transaction),
{
    !transaction.hash_block.null() && block_height(index, &transaction.hash_block).is_none()
}

/// The height at which each transaction was mined in the main chain.
pub open spec fn mined_heights(
    index: Seq<(BlockHash, u32)>,
    transactions: Seq<WalletTransaction>,
) -> Seq<Option<u32>> {
    transactions.map_values(
        |transaction: WalletTransaction| height_of(index, transaction.hash_block),
    )
}

/// The height at which each transaction was mined in the main chain.
pub fn transaction_heights(
    index: &Vec<(BlockHash, u32)>,
    transactions: &Vec<WalletTransaction>,
) -> (r: Vec<Option<u32>>)
    ensures
        r@ == mined_heights(index@, transactions@),
{
    let mut r: Vec<Option<u32>> = Vec::new();
    let mut i: usize = 0;
    while i < transactions.len()
        invariant
            i <= transactions@.len(),
            r@ == mined_heights(index@, transactions@).take(i as int),
        decreases transactions@.len() - i,
    {
        let height: Option<u32> = block_height(index, &transactions[i].hash_block);
        r.push(height);
        proof {
            assert(r@ =~= mined_heights(index@, transactions@).take(i + 1));
        }
        i = i + 1;
    }
    proof {
        assert(r@ =~= mined_heights(index@, transactions@));
    }
    r
}

/// The smaller of two heights, where there are two.
pub open spec fn lower(a: Option<u32>, b: Option<u32>) -> Option<u32> {
    match (a, b) {
        (Some(x), Some(y)) => Some(
            if x <= y {
                x
            } else {
                y
            },
        ),
        (Some(_), None) => a,
        (None, _) => b,
    }
}

/// The larger of two heights, where there are two.
pub open spec fn higher(a: Option<u32>, b: Option<u32>) -> Option<u32> {
    match (a, b) {
        (Some(x), Some(y)) => Some(
            if x >= y {
                x
            } else {
                y
            },
        ),
        (Some(_), None) => a,
        (None, _) => b,
    }
}

/// The smallest of the heights that are known.
pub open spec fn earliest(heights: Seq<Option<u32>>) -> Option<u32>
    decreases heights.len(),
{
    if heights.len() == 0 {
        None
    } else {
        lower(earliest(heights.drop_last()), heights.last())
    }
}

/// The largest of the heights that are known.
pub open spec fn latest(heights: Seq<Option<u32>>) -> Option<u32>
    decreases heights.len(),
{
    if heights.len() == 0 {
        None
    } else {
        higher(latest(heights.drop_last()), heights.last())
    }
}

/// The earliest height is one of the heights, and none of them is smaller; there is none exactly if
/// no height is known.
pub proof fn earliest_is_least(heights: Seq<Option<u32>>)
    ensures
        earliest(heights) is Some ==> heights.contains(earliest(heights)),
        forall|i: int|
            0 <= i < heights.len() && #[trigger] heights[i] is Some ==> earliest(heights) is Some
                && earliest(heights).unwrap() <= heights[i].unwrap(),
    decreases heights.len(),
{
    if heights.len() > 0 {
        let front = heights.drop_last();
        earliest_is_least(front);
        assert(heights[heights.len() - 1] == heights.last());
        if earliest(front) is Some {
            assert(heights[front.index_of(earliest(front))] == earliest(front));
        }
        assert forall|i: int|
            0 <= i < heights.len() && #[trigger] heights[i] is Some implies earliest(heights)
            is Some && earliest(heights).unwrap() <= heights[i].unwrap() by {
            if i < front.len() {
                assert(front[i] == heights[i]);
            }
        }
    }
}

/// The latest height is one of the heights, and none of them is larger; there is none exactly if no
/// height is known.
pub proof fn latest_is_greatest(heights: Seq<Option<u32>>)
    ensures
        latest(heights) is Some ==> heights.contains(latest(heights)),
        forall|i: int|
            0 <= i < heights.len() && #[trigger] heights[i] is Some ==> latest(heights) is Some
                && latest(heights).unwrap() >= heights[i].unwrap(),
    decreases heights.len(),
{
    if heights.len() > 0 {
        let front = heights.drop_last();
        latest_is_greatest(front);
        assert(heights[heights.len() - 1] == heights.last());
        if latest(front) is Some {
            assert(heights[front.index_of(latest(front))] == latest(front));
        }
        assert forall|i: int|
            0 <= i < heights.len() && #[trigger] heights[i] is Some implies latest(heights)
            is Some && latest(heights).unwrap() >= heights[i].unwrap() by {
            if i < front.len() {
                assert(front[i] == heights[i]);
            }
        }
    }
}

fn earliest_height(heights: &Vec<Option<u32>>) -> (r: Option<u32>)
    ensures
        r == earliest(heights@),
{
    let mut r: Option<u32> = None;
    let mut i: usize = 0;
    while i < heights.len()
        invariant
            i <= heights@.len(),
            r == earliest(heights@.take(i as int)),
        decreases heights@.len() - i,
    {
        proof {
            assert(heights@.take(i + 1).drop_last() =~= heights@.take(i as int));
        }
        match (r, heights[i]) {
            (Some(x), Some(y)) => {
                if y < x {
                    r = Some(y);
                }
            },
            (None, Some(y)) => {
                r = Some(y);
            },
            _ => {},
        }
        i = i + 1;
    }
    proof {
        assert(heights@.take(i as int) =~= heights@);
    }
    r
}

fn latest_height(heights: &Vec<Option<u32>>) -> (r: Option<u32>)
    ensures
        r == latest(heights@),
{
    let mut r: Option<u32> = None;
    let mut i: usize = 0;
    while i < heights.len()
        invariant
            i <= heights@.len(),
            r == latest(heights@.take(i as int)),
        decreases heights@.len() - i,
    {
        proof {
            assert(heights@.take(i + 1).drop_last() =~= heights@.take(i as int));
        }
        match (r, heights[i]) {
            (Some(x), Some(y)) => {
                if y > x {
                    r = Some(y);
                }
            },
            (None, Some(y)) => {
                r = Some(y);
            },
            _ => {},
        }
        i = i + 1;
    }
    proof {
        assert(heights@.take(i as int) =~= heights@);
    }
    r
}

/// The tip of a chain, if it can be used: at height zero the chain consists of only the genesis
/// block, and there is no usable tree state.
pub open spec fn usable(tip: u32) -> Option<u32> {
    if tip > 0 {
        Some(tip)
    } else {
        None
    }
}

/// The tip of a chain, if it can be used.
pub fn usable_tip(tip: u32) -> (r: Option<u32>)
    ensures
        r == usable(tip),
        r is None <==> tip == 0,
        r is Some ==> r == Some(tip),
{
    if tip > 0 {
        Some(tip)
    } else {
        None
    }
}

/// The larger of two heights.
pub open spec fn max_height(a: u32, b: u32) -> u32 {
    if a >= b {
        a
    } else {
        b
    }
}

/// The birthday of a wallet whose transactions were found in the chain: the height of the earliest
/// one, or else that of the tip, but not before the activation of Sapling.
pub open spec fn birthday_on_chain(
    heights: Seq<Option<u32>>,
    tip: Option<u32>,
    sapling_activation: u32,
) -> u32 {
    match earliest(heights) {
        Some(height) => max_height(height, sapling_activation),
        None => match tip {
            Some(height) => max_height(height, sapling_activation),
            None => sapling_activation,
        },
    }
}

/// The birthday of a wallet whose transactions were found in the chain.
pub fn chain_birthday(
    heights: &Vec<Option<u32>>,
    tip: Option<u32>,
    sapling_activation: u32,
) -> (r: u32)
    ensures
        r == birthday_on_chain(heights@, tip, sapling_activation),
{
    let first: Option<u32> = match earliest_height(heights) {
        Some(height) => Some(height),
        None => tip,
    };
    match first {
        Some(height) => if height >= sapling_activation {
            height
        } else {
            sapling_activation
        },
        None => sapling_activation,
    }
}

/// The heights at which the transactions expire, where they do.
pub open spec fn expiries(transactions: Seq<WalletTransaction>) -> Seq<Option<u32>> {
    transactions.map_values(
        |transaction: WalletTransaction|
            if transaction.expiry_height > 0 {
                Some(transaction.expiry_height)
            } else {
                None
            },
    )
}

/// How far before its expiry a transaction is taken to have been created at the earliest.
pub const EXPIRY_MARGIN: u32 = 1000;

/// A height less a number of blocks, and zero at the least.
pub open spec fn height_less(height: u32, blocks: u32) -> u32 {
    if height >= blocks {
        (height - blocks) as u32
    } else {
        0
    }
}

/// A height plus one, and the largest height at the most.
pub open spec fn next_height(height: u32) -> u32 {
    if height < u32::MAX {
        (height + 1) as u32
    } else {
        u32::MAX
    }
}

/// The birthday of a wallet that is not held against a chain: well before the first expiry of a
/// transaction, but not before the activation of Sapling.
pub open spec fn birthday_off_chain(
    transactions: Seq<WalletTransaction>,
    sapling_activation: u32,
) -> u32 {
    match earliest(expiries(transactions)) {
        Some(expiry) => max_height(height_less(expiry, EXPIRY_MARGIN), sapling_activation),
        None => sapling_activation,
    }
}

/// The birthday of a wallet that is not held against a chain.
///
/// Expiry heights are typically 40 blocks after the creation of a transaction. Going back much
/// further gives a conservative lower bound on the earliest mined height.
pub fn no_scan_birthday(transactions: &Vec<WalletTransaction>, sapling_activation: u32) -> (r: u32)
    ensures
        r == birthday_off_chain(transactions@, sapling_activation),
{
    let mut heights: Vec<Option<u32>> = Vec::new();
    let mut i: usize = 0;
    while i < transactions.len()
        invariant
            i <= transactions@.len(),
            heights@ == expiries(transactions@).take(i as int),
        decreases transactions@.len() - i,
    {
        let expiry: u32 = transactions[i].expiry_height;
        heights.push(if expiry > 0 { Some(expiry) } else { None });
        proof {
            assert(heights@ =~= expiries(transactions@).take(i + 1));
        }
        i = i + 1;
    }
    proof {
        assert(heights@ =~= expiries(transactions@));
    }
    match earliest_height(&heights) {
        Some(expiry) => {
            let height: u32 = if expiry >= EXPIRY_MARGIN { expiry - EXPIRY_MARGIN } else { 0 };
            if height >= sapling_activation {
                height
            } else {
                sapling_activation
            }
        },
        None => sapling_activation,
    }
}

/// A birthday on the chain is not before the activation of Sapling, nor after any transaction that
/// was mined since then.
pub proof fn chain_birthday_bounds(heights: Seq<Option<u32>>, tip: Option<u32>, sapling_activation: u32)
    ensures
        birthday_on_chain(heights, tip, sapling_activation) >= sapling_activation,
        forall|i: int|
            0 <= i < heights.len() && #[trigger] heights[i] is Some && heights[i].unwrap()
                >= sapling_activation ==> birthday_on_chain(heights, tip, sapling_activation)
                <= heights[i].unwrap(),
{
    earliest_is_least(heights);
}

/// A birthday off the chain is not before the activation of Sapling, nor after the expiry of any
/// transaction that expires since then.
pub proof fn no_scan_birthday_bounds(transactions: Seq<WalletTransaction>, sapling_activation: u32)
    ensures
        birthday_off_chain(transactions, sapling_activation) >= sapling_activation,
        forall|i: int|
            0 <= i < transactions.len() && (#[trigger] transactions[i]).expiry_height > 0
                && transactions[i].expiry_height >= sapling_activation ==> birthday_off_chain(
                transactions,
                sapling_activation,
            ) <= transactions[i].expiry_height,
{
    let heights = expiries(transactions);
    earliest_is_least(heights);
    assert forall|i: int|
        0 <= i < transactions.len() && (#[trigger] transactions[i]).expiry_height > 0
            && transactions[i].expiry_height >= sapling_activation implies birthday_off_chain(
        transactions,
        sapling_activation,
    ) <= transactions[i].expiry_height by {
        assert(heights[i] == Some(transactions[i].expiry_height));
    }
}

/// The failure to find the rules for a transaction when none of the wallet's was mined.
pub open spec fn all_unmined() -> error::MessageModel {
    error::plain("err-migrate-wallet-all-unmined"@)
}

/// The height at which the zcashd wallet is assumed to have been shut down: right after its last
/// transaction was mined.
pub open spec fn mempool_height(heights: Seq<Option<u32>>) -> Option<u32> {
    match latest(heights) {
        Some(height) => Some(next_height(height)),
        None => None,
    }
}

/// The height whose rules a transaction is read under: where it was mined, or else where it
/// expires, which is under the same rules, or else the assumed height of the mempool. It is unknown
/// for a transaction that does none of the two in a wallet of unmined transactions.
pub open spec fn height_for_rules(
    mined: Option<u32>,
    expiry_height: u32,
    mempool: Option<u32>,
) -> Option<u32> {
    match mined {
        Some(height) => Some(height),
        None => if expiry_height != 0 {
            Some(expiry_height)
        } else {
            mempool
        },
    }
}

/// The assumed height of the mempool.
pub fn assumed_mempool_height(heights: &Vec<Option<u32>>) -> (r: Option<u32>)
    ensures
        r == mempool_height(heights@),
{
    match latest_height(heights) {
        Some(height) => Some(if height < u32::MAX { height + 1 } else { u32::MAX }),
        None => None,
    }
}

/// The height whose rules a transaction is read under.
pub fn consensus_height(mined: Option<u32>, expiry_height: u32, mempool: Option<u32>) -> (r: Result<
    u32,
    MigrateError,
>)
    ensures
        match height_for_rules(mined, expiry_height, mempool) {
            Some(height) => r == Ok::<u32, MigrateError>(height),
            None => r matches Err(e) && error::raises(e, all_unmined()),
        },
        mined matches Some(height) ==> r == Ok::<u32, MigrateError>(height),
        mined is None && expiry_height != 0 ==> r == Ok::<u32, MigrateError>(expiry_height),
        mined is None && expiry_height == 0 && mempool is Some ==> r == Ok::<u32, MigrateError>(
            mempool.unwrap(),
        ),
        r is Err <==> mined is None && expiry_height == 0 && mempool is None,
{
    match mined {
        Some(height) => Ok(height),
        None => {
            if expiry_height == 0 {
                match mempool {
                    Some(height) => Ok(height),
                    None => Err(
                        MigrateError::raise(Message::plain("err-migrate-wallet-all-unmined")),
                    ),
                }
            } else {
                Ok(expiry_height)
            }
        },
    }
}

/// A transaction.
#[verifier::external_type_specification]
#[verifier::external_body]
pub struct ExTransaction(zcash_primitives::transaction::Transaction);

/// The transaction that a byte string encodes under the rules of a branch, or why it encodes none.
pub uninterp spec fn parsed_transaction(raw: Seq<u8>, branch: u32) -> Result<
    zcash_primitives::transaction::Transaction,
    std::io::Error,
>;

/// The scripts of the transparent outputs of a transaction, in their order.
pub uninterp spec fn output_scripts(
    transaction: zcash_primitives::transaction::Transaction,
) -> Seq<Seq<u8>>;

/// Calls `zcash_primitives::transaction::Transaction::read` under the rules of a branch. The
/// transaction, and the failure where there is none, are determined by the bytes and the branch.
#[verifier::external_body]
fn read_transaction(raw: &[u8], branch: u32) -> (r: Result<
    zcash_primitives::transaction::Transaction,
    std::io::Error,
>)
    requires
        consensus::is_branch(branch),
    ensures
        r == parsed_transaction(raw@, branch),
{
    let branch = zcash_protocol::consensus::BranchId::try_from(branch).expect("a known branch");
    zcash_primitives::transaction::Transaction::read(raw, branch)
}

/// Calls `transparent_bundle` of `zcash_primitives::transaction::Transaction`, and takes the
/// scripts of the outputs of the bundle, of which there are none where there is no bundle.
#[verifier::external_body]
fn transparent_outputs(transaction: &zcash_primitives::transaction::Transaction) -> (r: Vec<
    Vec<u8>,
>)
    ensures
        transparent::script_bytes(r@) == output_scripts(*transaction),
{
    match transaction.transparent_bundle() {
        Some(bundle) => bundle.vout.iter().map(|out| out.script_pubkey().0.0.clone()).collect(),
        None => Vec::new(),
    }
}

/// Whether one of the scripts pays to `address`.
pub open spec fn one_pays_to(scripts: Seq<Seq<u8>>, address: TransparentAddress) -> bool {
    exists|i: int| 0 <= i < scripts.len() && #[trigger] transparent::pays_to(scripts[i], address)
}

/// The addresses that the given output scripts pay to.
pub open spec fn script_addresses(scripts: Seq<Seq<u8>>) -> Set<TransparentAddress> {
    Set::new(|address: TransparentAddress| one_pays_to(scripts, address))
}

/// The output scripts of a transaction of the wallet. The branch under which it is read makes no
/// difference to its transparent outputs.
pub open spec fn outputs_of(transaction: WalletTransaction) -> Seq<Seq<u8>> {
    output_scripts(parsed_transaction(transaction.raw@, SPROUT_BRANCH)->Ok_0)
}

/// Whether a transaction of the wallet can be read.
pub open spec fn is_readable(transaction: WalletTransaction) -> bool {
    parsed_transaction(transaction.raw@, SPROUT_BRANCH) is Ok
}

/// Whether `e` is the failure to read the `i`th transaction, all before it being readable.
pub open spec fn unreadable_at(
    transactions: Seq<WalletTransaction>,
    i: int,
    e: MigrateError,
) -> bool {
    &&& 0 <= i < transactions.len()
    &&& !is_readable(transactions[i])
    &&& forall|j: int| 0 <= j < i ==> is_readable(#[trigger] transactions[j])
    &&& e == MigrateError::Io(parsed_transaction(transactions[i].raw@, SPROUT_BRANCH)->Err_0)
}

/// The addresses that the transactions of the wallet pay to.
pub open spec fn paid_addresses(transactions: Seq<WalletTransaction>) -> Set<TransparentAddress> {
    Set::new(
        |address: TransparentAddress|
            exists|i: int|
                0 <= i < transactions.len() && #[trigger] one_pays_to(
                    outputs_of(transactions[i]),
                    address,
                ),
    )
}

/// Adds the addresses that the given output scripts pay to.
pub fn insert_script_addresses(addresses: &mut AddressSet, scripts: &Vec<Vec<u8>>)
    requires
        old(addresses).wf(),
    ensures
        final(addresses).wf(),
        final(addresses)@ == old(addresses)@.union(script_addresses(transparent::script_bytes(scripts@))),
{
    let ghost all = transparent::script_bytes(scripts@);
    let ghost before = addresses@;
    let mut i: usize = 0;
    proof {
        assert(addresses@ =~= before.union(script_addresses(all.take(0))));
    }
    while i < scripts.len()
        invariant
            i <= scripts@.len(),
            all == transparent::script_bytes(scripts@),
            addresses.wf(),
            addresses@ == before.union(script_addresses(all.take(i as int))),
        decreases scripts@.len() - i,
    {
        let ghost here = addresses@;
        let found = from_script_pubkey(scripts[i].as_slice());
        match found {
            Some(address) => {
                addresses.insert(address);
            },
            None => {},
        }
        proof {
            assert(all[i as int] == scripts@[i as int]@);
            script_addresses_step(all, i as int, found);
            assert(addresses@ =~= before.union(script_addresses(all.take(i + 1))));
        }
        i = i + 1;
    }
    proof {
        assert(all.take(i as int) =~= all);
    }
}

proof fn script_addresses_step(
    scripts: Seq<Seq<u8>>,
    i: int,
    found: Option<TransparentAddress>,
)
    requires
        0 <= i < scripts.len(),
        found is Some <==> transparent::pays_script_hash(scripts[i])
            || transparent::pays_public_key_hash(scripts[i]),
        found is Some ==> transparent::pays_to(scripts[i], found.unwrap()),
    ensures
        script_addresses(scripts.take(i + 1)) == (match found {
            Some(address) => script_addresses(scripts.take(i)).insert(address),
            None => script_addresses(scripts.take(i)),
        }),
{
    let before = scripts.take(i);
    let after = scripts.take(i + 1);
    let expected = match found {
        Some(address) => script_addresses(before).insert(address),
        None => script_addresses(before),
    };
    assert forall|a: TransparentAddress|
        script_addresses(after).contains(a) <==> #[trigger] expected.contains(a) by {
        if one_pays_to(after, a) {
            let j = choose|j: int|
                0 <= j < after.len() && #[trigger] transparent::pays_to(after[j], a);
            if j == i {
                transparent::pays_to_one(scripts[i], a, found.unwrap());
            } else {
                assert(transparent::pays_to(before[j], a));
            }
        }
        if one_pays_to(before, a) {
            let j = choose|j: int|
                0 <= j < before.len() && #[trigger] transparent::pays_to(before[j], a);
            assert(transparent::pays_to(after[j], a));
        }
        if found is Some {
            assert(transparent::pays_to(after[i], found.unwrap()));
        }
    }
    assert(script_addresses(after) =~= expected);
}

/// The addresses that the transactions of the wallet pay to, or the failure to read one of them.
pub fn output_addresses(transactions: &Vec<WalletTransaction>) -> (r: Result<
    AddressSet,
    MigrateError,
>)
    ensures
        r is Ok <==> forall|i: int|
            0 <= i < transactions@.len() ==> is_readable(#[trigger] transactions@[i]),
        r matches Ok(addresses) ==> addresses.wf() && addresses@ == paid_addresses(transactions@),
        r matches Err(e) ==> exists|i: int| #[trigger] unreadable_at(transactions@, i, e),
{
    let ghost all = transactions@;
    let mut addresses: AddressSet = AddressSet::new();
    let mut i: usize = 0;
    proof {
        assert(addresses@ =~= paid_addresses(all.take(0)));
    }
    while i < transactions.len()
        invariant
            i <= transactions@.len(),
            all == transactions@,
            addresses.wf(),
            addresses@ == paid_addresses(all.take(i as int)),
            forall|j: int| 0 <= j < i ==> is_readable(#[trigger] all[j]),
        decreases transactions@.len() - i,
    {
        let transaction = match read_transaction(transactions[i].raw.as_slice(), SPROUT_BRANCH) {
            Ok(transaction) => transaction,
            Err(e) => {
                let failure = MigrateError::from(e);
                proof {
                    assert(unreadable_at(all, i as int, failure));
                }
                return Err(failure);
            },
        };
        let scripts: Vec<Vec<u8>> = transparent_outputs(&transaction);
        insert_script_addresses(&mut addresses, &scripts);
        proof {
            let before = all.take(i as int);
            let after = all.take(i + 1);
            assert forall|a: TransparentAddress|
                paid_addresses(after).contains(a) <==> #[trigger] addresses@.contains(a) by {
                if paid_addresses(after).contains(a) {
                    let j = choose|j: int|
                        0 <= j < after.len() && #[trigger] one_pays_to(outputs_of(after[j]), a);
                    if j < i {
                        assert(one_pays_to(outputs_of(before[j]), a));
                    }
                }
                if paid_addresses(before).contains(a) {
                    let j = choose|j: int|
                        0 <= j < before.len() && #[trigger] one_pays_to(outputs_of(before[j]), a);
                    assert(one_pays_to(outputs_of(after[j]), a));
                }
                if one_pays_to(outputs_of(all[i as int]), a) {
                    assert(one_pays_to(outputs_of(after[i as int]), a));
                }
            }
            assert(addresses@ =~= paid_addresses(after));
        }
        i = i + 1;
    }
    proof {
        assert(all.take(i as int) =~= all);
    }
    Ok(addresses)
}

/// A transaction that was read under the rules of its height, and the height at which it was mined.
pub struct DecodedTransaction {
    pub transaction: zcash_primitives::transaction::Transaction,
    pub mined_height: Option<u32>,
}

/// The height whose rules the `i`th transaction is read under.
pub open spec fn rules_height(
    transactions: Seq<WalletTransaction>,
    heights: Seq<Option<u32>>,
    i: int,
) -> Option<u32> {
    height_for_rules(heights[i], transactions[i].expiry_height, mempool_height(heights))
}

/// What a transaction is read as under the rules of a height.
pub open spec fn read_at(
    transaction: WalletTransaction,
    upgrades: NetworkUpgrades,
    height: u32,
) -> Result<zcash_primitives::transaction::Transaction, std::io::Error> {
    parsed_transaction(transaction.raw@, consensus::branch_at(upgrades, height))
}

/// What the `i`th transaction is read as.
pub open spec fn decoded(
    transactions: Seq<WalletTransaction>,
    heights: Seq<Option<u32>>,
    upgrades: NetworkUpgrades,
    i: int,
) -> Option<zcash_primitives::transaction::Transaction> {
    match rules_height(transactions, heights, i) {
        Some(height) => match read_at(transactions[i], upgrades, height) {
            Ok(transaction) => Some(transaction),
            Err(_) => None,
        },
        None => None,
    }
}

/// Whether `e` is the failure to read the `i`th transaction, all before it having been read.
pub open spec fn fails_at(
    transactions: Seq<WalletTransaction>,
    heights: Seq<Option<u32>>,
    upgrades: NetworkUpgrades,
    i: int,
    e: MigrateError,
) -> bool {
    &&& 0 <= i < transactions.len()
    &&& decoded(transactions, heights, upgrades, i) is None
    &&& forall|j: int| 0 <= j < i ==> #[trigger] decoded(transactions, heights, upgrades, j) is Some
    &&& match rules_height(transactions, heights, i) {
        Some(height) => e == MigrateError::Io(
            read_at(transactions[i], upgrades, height)->Err_0,
        ),
        None => error::raises(e, all_unmined()),
    }
}

/// Whether `r` is what the transactions of the wallet are read as.
pub open spec fn decodes(
    transactions: Seq<WalletTransaction>,
    heights: Seq<Option<u32>>,
    upgrades: NetworkUpgrades,
    r: Result<Vec<DecodedTransaction>, MigrateError>,
) -> bool {
    match r {
        Ok(txs) => {
            &&& txs@.len() == transactions.len()
            &&& forall|i: int|
                0 <= i < transactions.len() ==> decoded(transactions, heights, upgrades, i) == Some(
                    (#[trigger] txs@[i]).transaction,
                ) && txs@[i].mined_height == heights[i]
        },
        Err(e) => exists|i: int| #[trigger] fails_at(transactions, heights, upgrades, i, e),
    }
}

/// Transactions that are read do not fail to be read.
pub proof fn decoding_is_settled(
    transactions: Seq<WalletTransaction>,
    heights: Seq<Option<u32>>,
    upgrades: NetworkUpgrades,
    txs: Vec<DecodedTransaction>,
    e: MigrateError,
)
    requires
        decodes(transactions, heights, upgrades, Ok(txs)),
    ensures
        !decodes(transactions, heights, upgrades, Err(e)),
{
    if decodes(transactions, heights, upgrades, Err(e)) {
        let i = choose|i: int| #[trigger] fails_at(transactions, heights, upgrades, i, e);
        assert(decoded(transactions, heights, upgrades, i) == Some(txs@[i].transaction));
    }
}

/// Reads the transactions of the wallet, each under the rules of its height.
pub fn decode_transactions(
    transactions: &Vec<WalletTransaction>,
    heights: &Vec<Option<u32>>,
    upgrades: &NetworkUpgrades,
) -> (r: Result<Vec<DecodedTransaction>, MigrateError>)
    requires
        heights@.len() == transactions@.len(),
    ensures
        decodes(transactions@, heights@, *upgrades, r),
{
    let mempool: Option<u32> = assumed_mempool_height(heights);
    let mut txs: Vec<DecodedTransaction> = Vec::new();
    let mut i: usize = 0;
    while i < transactions.len()
        invariant
            i <= transactions@.len(),
            heights@.len() == transactions@.len(),
            mempool == mempool_height(heights@),
            txs@.len() == i,
            forall|j: int|
                0 <= j < i ==> decoded(transactions@, heights@, *upgrades, j) == Some(
                    (#[trigger] txs@[j]).transaction,
                ) && txs@[j].mined_height == heights@[j],
        decreases transactions@.len() - i,
    {
        proof {
            assert forall|j: int| 0 <= j < i implies #[trigger] decoded(
                transactions@,
                heights@,
                *upgrades,
                j,
            ) is Some by {
                assert(decoded(transactions@, heights@, *upgrades, j) == Some(txs@[j].transaction));
            }
        }
        let height: u32 = match consensus_height(heights[i], transactions[i].expiry_height, mempool) {
            Ok(height) => height,
            Err(e) => {
                proof {
                    assert(fails_at(transactions@, heights@, *upgrades, i as int, e));
                }
                return Err(e);
            },
        };
        let branch: u32 = branch_for_height(upgrades, height);
        match read_transaction(transactions[i].raw.as_slice(), branch) {
            Ok(transaction) => {
                txs.push(DecodedTransaction { transaction, mined_height: heights[i] });
            },
            Err(e) => {
                let failure = MigrateError::from(e);
                proof {
                    assert(fails_at(transactions@, heights@, *upgrades, i as int, failure));
                }
                return Err(failure);
            },
        }
        i = i + 1;
    }
    Ok(txs)
}

/// A wallet with a mined transaction never lacks the rules for another.
pub proof fn mined_wallet_has_rules(
    transactions: Seq<WalletTransaction>,
    heights: Seq<Option<u32>>,
    i: int,
    k: int,
)
    requires
        heights.len() == transactions.len(),
        0 <= i < transactions.len(),
        0 <= k < heights.len(),
        heights[k] is Some,
    ensures
        rules_height(transactions, heights, i) is Some,
{
    latest_is_greatest(heights);
}

/// A block that was entered into an index once has the height that it was entered with, and one that
/// was not has none.
pub proof fn height_of_is_what_was_entered(index: Seq<(BlockHash, u32)>, hash: BlockHash)
    ensures
        height_of(index, hash) matches Some(height) ==> index.contains((hash, height)),
        height_of(index, hash) is None ==> forall|i: int|
            0 <= i < index.len() ==> (#[trigger] index[i]).0 != hash,
        forall|i: int|
            0 <= i < index.len() && (#[trigger] index[i]).0 == hash && (forall|j: int|
                i < j < index.len() ==> (#[trigger] index[j]).0 != hash) ==> height_of(index, hash)
                == Some(index[i].1),
    decreases index.len(),
{
    if index.len() > 0 {
        let n = index.len() - 1;
        let front = index.drop_last();
        height_of_is_what_was_entered(front, hash);
        assert(index[n] == index.last());
        if index.last().0 != hash {
            if height_of(front, hash) is Some {
                let j = front.index_of((hash, height_of(front, hash).unwrap()));
                assert(index[j] == (hash, height_of(front, hash).unwrap()));
            } else {
                assert forall|i: int| 0 <= i < index.len() implies (#[trigger] index[i]).0
                    != hash by {
                    if i < n {
                        assert(front[i] == index[i]);
                    }
                }
            }
            assert forall|i: int|
                0 <= i < index.len() && (#[trigger] index[i]).0 == hash && (forall|j: int|
                    i < j < index.len() ==> (#[trigger] index[j]).0 != hash) implies height_of(
                index,
                hash,
            ) == Some(index[i].1) by {
                assert(front[i] == index[i]);
                assert forall|j: int| i < j < front.len() implies (#[trigger] front[j]).0
                    != hash by {
                    assert(index[j].0 != hash);
                }
            }
        } else {
            assert(index[n] == (hash, index.last().1));
        }
    }
}

/// The height at which a transaction was mined is that of its block, and nothing else about the
/// transaction counts: it is the height that its block was entered with, and there is none if its
/// block was not entered.
pub proof fn mined_height_is_that_of_the_block(
    index: Seq<(BlockHash, u32)>,
    transactions: Seq<WalletTransaction>,
    i: int,
)
    requires
        0 <= i < transactions.len(),
    ensures
        mined_heights(index, transactions).len() == transactions.len(),
        mined_heights(index, transactions)[i] matches Some(height) ==> index.contains(
            (transactions[i].hash_block, height),
        ),
        mined_heights(index, transactions)[i] is None ==> forall|j: int|
            0 <= j < index.len() ==> (#[trigger] index[j]).0 != transactions[i].hash_block,
        forall|k: int|
            0 <= k < transactions.len() && (#[trigger] transactions[k]).hash_block
                == transactions[i].hash_block ==> mined_heights(index, transactions)[k]
                == mined_heights(index, transactions)[i],
{
    height_of_is_what_was_entered(index, transactions[i].hash_block);
}

/// A block has to be looked up exactly if it is a block, and its height is not known yet.
pub proof fn lookup_is_for_unknown_blocks(
    index: Seq<(BlockHash, u32)>,
    transaction: WalletTransaction,
)
    ensures
        needs_lookup(index, transaction) <==> !(forall|j: int|
            0 <= j < 32 ==> transaction.hash_block.bytes@[j] == 0) && (forall|i: int|
            0 <= i < index.len() ==> (#[trigger] index[i]).0 != transaction.hash_block),
{
    height_of_is_what_was_entered(index, transaction.hash_block);
    if forall|i: int| 0 <= i < index.len() ==> (#[trigger] index[i]).0 != transaction.hash_block {
        height_of_absent(index, transaction.hash_block);
    }
}

/// The birthday on the chain is the height of the earliest mined transaction, or that of Sapling if
/// that is later. Where nothing was mined the tip stands in, and where there is no tip either, the
/// birthday is the activation of Sapling.
pub proof fn chain_birthday_is_of_the_earliest(
    heights: Seq<Option<u32>>,
    tip: Option<u32>,
    sapling_activation: u32,
    i: int,
)
    requires
        0 <= i < heights.len(),
        heights[i] is Some,
        forall|j: int|
            0 <= j < heights.len() && (#[trigger] heights[j]) is Some ==> heights[i].unwrap()
                <= heights[j].unwrap(),
    ensures
        heights[i].unwrap() >= sapling_activation ==> birthday_on_chain(
            heights,
            tip,
            sapling_activation,
        ) == heights[i].unwrap(),
        heights[i].unwrap() < sapling_activation ==> birthday_on_chain(
            heights,
            tip,
            sapling_activation,
        ) == sapling_activation,
{
    earliest_is_least(heights);
    let k = heights.index_of(earliest(heights));
    assert(heights[k] is Some);
}

/// Where nothing was mined, the birthday on the chain is that of the tip, or the activation of
/// Sapling if that is later or if there is no tip.
pub proof fn chain_birthday_without_transactions(
    heights: Seq<Option<u32>>,
    tip: Option<u32>,
    sapling_activation: u32,
)
    requires
        forall|j: int| 0 <= j < heights.len() ==> (#[trigger] heights[j]) is None,
    ensures
        tip is None ==> birthday_on_chain(heights, tip, sapling_activation) == sapling_activation,
        tip is Some && tip.unwrap() >= sapling_activation ==> birthday_on_chain(
            heights,
            tip,
            sapling_activation,
        ) == tip.unwrap(),
        tip is Some && tip.unwrap() < sapling_activation ==> birthday_on_chain(
            heights,
            tip,
            sapling_activation,
        ) == sapling_activation,
{
    earliest_is_least(heights);
    if earliest(heights) is Some {
        let k = heights.index_of(earliest(heights));
        assert(heights[k] is None);
    }
}

/// The birthday off the chain is a thousand blocks before the earliest expiry of a transaction, but
/// not before the activation of Sapling.
pub proof fn no_scan_birthday_is_before_the_first_expiry(
    transactions: Seq<WalletTransaction>,
    sapling_activation: u32,
    i: int,
)
    requires
        0 <= i < transactions.len(),
        transactions[i].expiry_height > 0,
        forall|j: int|
            0 <= j < transactions.len() && (#[trigger] transactions[j]).expiry_height > 0
                ==> transactions[i].expiry_height <= transactions[j].expiry_height,
    ensures
        transactions[i].expiry_height >= sapling_activation + 1000 ==> birthday_off_chain(
            transactions,
            sapling_activation,
        ) + 1000 == transactions[i].expiry_height,
        transactions[i].expiry_height < sapling_activation + 1000 ==> birthday_off_chain(
            transactions,
            sapling_activation,
        ) == sapling_activation,
{
    let heights = expiries(transactions);
    earliest_is_least(heights);
    assert(heights[i] == Some(transactions[i].expiry_height));
    let k = heights.index_of(earliest(heights));
    assert(heights[k] == earliest(heights));
    assert(transactions[k].expiry_height > 0);
}

/// Where no transaction expires, the birthday off the chain is the activation of Sapling.
pub proof fn no_scan_birthday_without_expiry(
    transactions: Seq<WalletTransaction>,
    sapling_activation: u32,
)
    requires
        forall|j: int|
            0 <= j < transactions.len() ==> (#[trigger] transactions[j]).expiry_height == 0,
    ensures
        birthday_off_chain(transactions, sapling_activation) == sapling_activation,
{
    let heights = expiries(transactions);
    earliest_is_least(heights);
    if earliest(heights) is Some {
        let k = heights.index_of(earliest(heights));
        assert(heights[k] == earliest(heights));
        assert(transactions[k].expiry_height == 0);
    }
}

/// A transaction that was mined is read under the rules of the height at which it was, whatever else
/// the wallet holds. One that was not is read under those of its expiry, and if it does not expire,
/// under those of the height after the last at which a transaction of the wallet was mined. It is
/// only where none was mined that there are no rules for it.
pub proof fn rules_are_those_of_the_mined_height(
    transactions: Seq<WalletTransaction>,
    heights: Seq<Option<u32>>,
    i: int,
)
    requires
        heights.len() == transactions.len(),
        0 <= i < transactions.len(),
    ensures
        heights[i] is Some ==> rules_height(transactions, heights, i) == heights[i],
        heights[i] is None && transactions[i].expiry_height != 0 ==> rules_height(
            transactions,
            heights,
            i,
        ) == Some(transactions[i].expiry_height),
        heights[i] is None && transactions[i].expiry_height == 0 ==> (rules_height(
            transactions,
            heights,
            i,
        ) is None <==> forall|k: int| 0 <= k < heights.len() ==> (#[trigger] heights[k]) is None),
        forall|k: int|
            heights[i] is None && transactions[i].expiry_height == 0 && 0 <= k < heights.len()
                && (#[trigger] heights[k]) is Some && heights[k].unwrap() < u32::MAX && (
            forall|j: int|
                0 <= j < heights.len() && (#[trigger] heights[j]) is Some ==> heights[j].unwrap()
                    <= heights[k].unwrap()) ==> rules_height(transactions, heights, i) == Some(
                (heights[k].unwrap() + 1) as u32,
            ),
{
    latest_is_greatest(heights);
    if latest(heights) is Some {
        let m = heights.index_of(latest(heights));
        assert(heights[m] == latest(heights));
    }
}

/// The transactions that are read are those of the wallet, each under the rules that are its own,
/// and each with the height at which it was mined.
pub proof fn decoded_transactions_are_those_of_the_wallet(
    transactions: Seq<WalletTransaction>,
    heights: Seq<Option<u32>>,
    upgrades: NetworkUpgrades,
    txs: Vec<DecodedTransaction>,
    i: int,
)
    requires
        heights.len() == transactions.len(),
        decodes(transactions, heights, upgrades, Ok(txs)),
        0 <= i < transactions.len(),
    ensures
        txs@.len() == transactions.len(),
        txs@[i].mined_height == heights[i],
        heights[i] matches Some(height) ==> parsed_transaction(
            transactions[i].raw@,
            consensus::branch_at(upgrades, height),
        ) == Ok::<_, std::io::Error>(txs@[i].transaction),
        heights[i] is None && transactions[i].expiry_height != 0 ==> parsed_transaction(
            transactions[i].raw@,
            consensus::branch_at(upgrades, transactions[i].expiry_height),
        ) == Ok::<_, std::io::Error>(txs@[i].transaction),
        heights[i] is None && transactions[i].expiry_height == 0 ==> exists|k: int|
            #![trigger heights[k]]
            0 <= k < heights.len() && heights[k] is Some && parsed_transaction(
                transactions[i].raw@,
                consensus::branch_at(upgrades, next_height(heights[k].unwrap())),
            ) == Ok::<_, std::io::Error>(txs@[i].transaction) && forall|j: int|
                0 <= j < heights.len() && (#[trigger] heights[j]) is Some ==> heights[j].unwrap()
                    <= heights[k].unwrap(),
{
    latest_is_greatest(heights);
    assert(decoded(transactions, heights, upgrades, i) == Some(txs@[i].transaction));
    if latest(heights) is Some {
        let m = heights.index_of(latest(heights));
        assert(heights[m] == latest(heights));
    }
}

/// A wallet whose transactions all have rules, under which each can be read, is read.
pub proof fn readable_wallets_are_decoded(
    transactions: Seq<WalletTransaction>,
    heights: Seq<Option<u32>>,
    upgrades: NetworkUpgrades,
    e: MigrateError,
)
    requires
        heights.len() == transactions.len(),
        forall|i: int|
            0 <= i < transactions.len() ==> {
                &&& (#[trigger] heights[i]) is Some
                &&& parsed_transaction(
                    transactions[i].raw@,
                    consensus::branch_at(upgrades, heights[i].unwrap()),
                ) is Ok
            },
    ensures
        !decodes(transactions, heights, upgrades, Err(e)),
{
    if decodes(transactions, heights, upgrades, Err(e)) {
        let i = choose|i: int| #[trigger] fails_at(transactions, heights, upgrades, i, e);
        assert(heights[i] is Some);
    }
}

/// An address is among those that the wallet's transactions pay to exactly if an output of one of
/// them pays to it.
pub proof fn paid_addresses_are_those_of_outputs(
    transactions: Seq<WalletTransaction>,
    address: TransparentAddress,
)
    ensures
        paid_addresses(transactions).contains(address) <==> exists|i: int, j: int|
            #![trigger output_scripts(parsed_transaction(transactions[i].raw@, 0)->Ok_0)[j]]
            0 <= i < transactions.len() && 0 <= j < output_scripts(
                parsed_transaction(transactions[i].raw@, 0)->Ok_0,
            ).len() && transparent::pays_to(
                output_scripts(parsed_transaction(transactions[i].raw@, 0)->Ok_0)[j],
                address,
            ),
{
    if paid_addresses(transactions).contains(address) {
        let i = choose|i: int|
            0 <= i < transactions.len() && #[trigger] one_pays_to(
                outputs_of(transactions[i]),
                address,
            );
        let scripts = outputs_of(transactions[i]);
        let j = choose|j: int|
            0 <= j < scripts.len() && #[trigger] transparent::pays_to(scripts[j], address);
        assert(output_scripts(parsed_transaction(transactions[i].raw@, 0)->Ok_0)[j] == scripts[j]);
    }
    if exists|i: int, j: int|
        #![trigger output_scripts(parsed_transaction(transactions[i].raw@, 0)->Ok_0)[j]]
        0 <= i < transactions.len() && 0 <= j < output_scripts(
            parsed_transaction(transactions[i].raw@, 0)->Ok_0,
        ).len() && transparent::pays_to(
            output_scripts(parsed_transaction(transactions[i].raw@, 0)->Ok_0)[j],
            address,
        ) {
        let (i, j) = choose|i: int, j: int|
            #![trigger output_scripts(parsed_transaction(transactions[i].raw@, 0)->Ok_0)[j]]
            0 <= i < transactions.len() && 0 <= j < output_scripts(
                parsed_transaction(transactions[i].raw@, 0)->Ok_0,
            ).len() && transparent::pays_to(
                output_scripts(parsed_transaction(transactions[i].raw@, 0)->Ok_0)[j],
                address,
            );
        let scripts = outputs_of(transactions[i]);
        assert(transparent::pays_to(scripts[j], address));
        assert(one_pays_to(outputs_of(transactions[i]), address));
    }
}

/// A transaction of the wallet can be read without regard to any network upgrade exactly if its
/// encoding can be.
pub proof fn readable_as_before_all_upgrades(transaction: WalletTransaction)
    ensures
        is_readable(transaction) <==> parsed_transaction(transaction.raw@, 0) is Ok,
{
}

/// The height after another is one more, and that before is one less, as far as there is one.
pub proof fn heights_are_counted(height: u32, blocks: u32)
    ensures
        height < u32::MAX ==> next_height(height) == height + 1,
        next_height(u32::MAX) == u32::MAX,
        height >= blocks ==> height_less(height, blocks) + blocks == height,
        height < blocks ==> height_less(height, blocks) == 0,
{
}

/// Where the transactions of the wallet cannot be read, it is for the first of them that cannot be
/// under the rules that are its own, or that has no rules of its own where nothing was mined.
pub proof fn decoding_fails_at_the_first(
    transactions: Seq<WalletTransaction>,
    heights: Seq<Option<u32>>,
    upgrades: NetworkUpgrades,
    e: MigrateError,
) -> (i: int)
    requires
        heights.len() == transactions.len(),
        decodes(transactions, heights, upgrades, Err(e)),
    ensures
        0 <= i < transactions.len(),
        heights[i] matches Some(height) ==> (parsed_transaction(
            transactions[i].raw@,
            consensus::branch_at(upgrades, height),
        ) matches Err(cause) && e == MigrateError::Io(cause)),
        heights[i] is None && transactions[i].expiry_height > 0 ==> (parsed_transaction(
            transactions[i].raw@,
            consensus::branch_at(upgrades, transactions[i].expiry_height),
        ) matches Err(cause) && e == MigrateError::Io(cause)),
        heights[i] is None && transactions[i].expiry_height == 0 ==> match e {
            MigrateError::Io(cause) => exists|k: int|
                #![trigger heights[k]]
                0 <= k < heights.len() && heights[k] is Some && parsed_transaction(
                    transactions[i].raw@,
                    consensus::branch_at(upgrades, next_height(heights[k].unwrap())),
                ) == Err::<zcash_primitives::transaction::Transaction, std::io::Error>(cause)
                    && forall|j: int|
                    0 <= j < heights.len() && (#[trigger] heights[j]) is Some ==> heights[j].unwrap()
                        <= heights[k].unwrap(),
            MigrateError::Wrapped(error::CommandError::Message(message)) => message@.id
                == "err-migrate-wallet-all-unmined"@ && message@.args.len() == 0 && forall|k: int|
                0 <= k < heights.len() ==> (#[trigger] heights[k]) is None,
            _ => false,
        },
        forall|j: int|
            0 <= j < i && (#[trigger] heights[j]) is Some ==> parsed_transaction(
                transactions[j].raw@,
                consensus::branch_at(upgrades, heights[j].unwrap()),
            ) is Ok,
        forall|j: int|
            0 <= j < i && (#[trigger] heights[j]) is None && transactions[j].expiry_height > 0
                ==> parsed_transaction(
                transactions[j].raw@,
                consensus::branch_at(upgrades, transactions[j].expiry_height),
            ) is Ok,
{
    let i = choose|i: int| #[trigger] fails_at(transactions, heights, upgrades, i, e);
    latest_is_greatest(heights);
    if latest(heights) is Some {
        let m = heights.index_of(latest(heights));
        assert(heights[m] == latest(heights));
    }
    assert forall|j: int| 0 <= j < i implies decoded(transactions, heights, upgrades, j) is Some
        && (#[trigger] heights[j]) == heights[j] by {
    }
    i
}

} // verus!
