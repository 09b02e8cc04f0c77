//! The network upgrades, and the consensus rules in force at a height.

use vstd::prelude::*;
use zcash_protocol::consensus::{BlockHeight, BranchId};
use zcash_protocol::local_consensus::LocalNetwork;

verus! {

/// The height at which each network upgrade activates, if it does.
#[derive(Clone, Copy, Debug, PartialEq, Eq, Structural)]
pub struct NetworkUpgrades {
    pub overwinter: Option<u32>,
    pub sapling: Option<u32>,
    pub blossom: Option<u32>,
    pub heartwood: Option<u32>,
    pub canopy: Option<u32>,
    pub nu5: Option<u32>,
    pub nu6: Option<u32>,
    pub nu6_1: Option<u32>,
    pub nu6_2: Option<u32>,
    pub nu6_3: Option<u32>,
    pub nu7: Option<u32>,
}

/// The branch identifier of the rules before any network upgrade.
pub const SPROUT_BRANCH: u32 = 0;

/// Whether an upgrade is active at `height`.
pub open spec fn is_active(activation: Option<u32>, height: u32) -> bool {
    activation matches Some(at) && at <= height
}

/// The branch identifier of the rules in force at `height`: that of the last upgrade, in the order
/// of the upgrades, that is active there.
pub open spec fn branch_at(upgrades: NetworkUpgrades, height: u32) -> u32 {
    if is_active(upgrades.nu7, height) {
        0x7719_0ad9
    } else if is_active(upgrades.nu6_3, height) {
        0x37a5_165b
    } else if is_active(upgrades.nu6_2, height) {
        0x5437_f330
    } else if is_active(upgrades.nu6_1, height) {
        0x4dec_4df0
    } else if is_active(upgrades.nu6, height) {
        0xc8e7_1055
    } else if is_active(upgrades.nu5, height) {
        0xc2d6_d0b4
    } else if is_active(upgrades.canopy, height) {
        0xe9ff_75a6
    } else if is_active(upgrades.heartwood, height) {
        0xf5b9_230b
    } else if is_active(upgrades.blossom, height) {
        0x2bb4_0e60
    } else if is_active(upgrades.sapling, height) {
        0x76b8_09bb
    } else if is_active(upgrades.overwinter, height) {
        0x5ba8_1b19
    } else {
        SPROUT_BRANCH
    }
}

/// Whether `id` is the branch identifier of some rules.
pub open spec fn is_branch(id: u32) -> bool {
    ||| id == SPROUT_BRANCH
    ||| id == 0x5ba8_1b19
    ||| id == 0x76b8_09bb
    ||| id == 0x2bb4_0e60
    ||| id == 0xf5b9_230b
    ||| id == 0xe9ff_75a6
    ||| id == 0xc2d6_d0b4
    ||| id == 0xc8e7_1055
    ||| id == 0x4dec_4df0
    ||| id == 0x5437_f330
    ||| id == 0x37a5_165b
    ||| id == 0x7719_0ad9
}

/// Calls `zcash_protocol::consensus::BranchId::for_height`, which goes through the upgrades from
/// the last to the first and takes the first that it finds active.
#[verifier::external_body]
fn for_height(upgrades: &NetworkUpgrades, height: u32) -> (r: u32)
    ensures
        r == branch_at(*upgrades, height),
{
    let network = LocalNetwork {
        overwinter: upgrades.overwinter.map(BlockHeight::from_u32),
        sapling: upgrades.sapling.map(BlockHeight::from_u32),
        blossom: upgrades.blossom.map(BlockHeight::from_u32),
        heartwood: upgrades.heartwood.map(BlockHeight::from_u32),
        canopy: upgrades.canopy.map(BlockHeight::from_u32),
        nu5: upgrades.nu5.map(BlockHeight::from_u32),
        nu6: upgrades.nu6.map(BlockHeight::from_u32),
        nu6_1: upgrades.nu6_1.map(BlockHeight::from_u32),
        nu6_2: upgrades.nu6_2.map(BlockHeight::from_u32),
        nu6_3: upgrades.nu6_3.map(BlockHeight::from_u32),
        nu7: upgrades.nu7.map(BlockHeight::from_u32),
    };
    BranchId::for_height(&network, BlockHeight::from_u32(height)).into()
}

/// The branch identifier of the rules in force at `height`.
pub fn branch_for_height(upgrades: &NetworkUpgrades, height: u32) -> (r: u32)
    ensures
        r == branch_at(*upgrades, height),
        is_branch(r),
{
    for_height(upgrades, height)
}

/// The upgrades in their order, each with the branch identifier of its rules.
pub open spec fn in_order(upgrades: NetworkUpgrades) -> Seq<(Option<u32>, u32)> {
    seq![
        (upgrades.overwinter, 0x5ba8_1b19u32),
        (upgrades.sapling, 0x76b8_09bb),
        (upgrades.blossom, 0x2bb4_0e60),
        (upgrades.heartwood, 0xf5b9_230b),
        (upgrades.canopy, 0xe9ff_75a6),
        (upgrades.nu5, 0xc2d6_d0b4),
        (upgrades.nu6, 0xc8e7_1055),
        (upgrades.nu6_1, 0x4dec_4df0),
        (upgrades.nu6_2, 0x5437_f330),
        (upgrades.nu6_3, 0x37a5_165b),
        (upgrades.nu7, 0x7719_0ad9),
    ]
}

/// The rules at a height are those of the last upgrade that has activated by then, and those from
/// before all upgrades if none has.
pub proof fn rules_are_of_the_last_upgrade(upgrades: NetworkUpgrades, height: u32, r: u32, k: int)
    requires
        call_ensures(branch_for_height, (&upgrades, height), r),
        -1 <= k < in_order(upgrades).len(),
        forall|j: int|
            k < j < in_order(upgrades).len() ==> !((#[trigger] in_order(upgrades)[j]).0 is Some
                && in_order(upgrades)[j].0.unwrap() <= height),
    ensures
        k >= 0 && in_order(upgrades)[k].0 is Some && in_order(upgrades)[k].0.unwrap() <= height
            ==> r == in_order(upgrades)[k].1,
        k == -1 ==> r == 0,
{
    let all = in_order(upgrades);
    assert(all.len() == 11);
    assert(k < 0 ==> all[0] == (upgrades.overwinter, 0x5ba8_1b19u32));
    assert(all[1] == (upgrades.sapling, 0x76b8_09bbu32));
    assert(all[2] == (upgrades.blossom, 0x2bb4_0e60u32));
    assert(all[3] == (upgrades.heartwood, 0xf5b9_230bu32));
    assert(all[4] == (upgrades.canopy, 0xe9ff_75a6u32));
    assert(all[5] == (upgrades.nu5, 0xc2d6_d0b4u32));
    assert(all[6] == (upgrades.nu6, 0xc8e7_1055u32));
    assert(all[7] == (upgrades.nu6_1, 0x4dec_4df0u32));
    assert(all[8] == (upgrades.nu6_2, 0x5437_f330u32));
    assert(all[9] == (upgrades.nu6_3, 0x37a5_165bu32));
    assert(all[10] == (upgrades.nu7, 0x7719_0ad9u32));
}

} // verus!
