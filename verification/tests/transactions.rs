use zallet_migrate::consensus::{branch_for_height, NetworkUpgrades};
use zallet_migrate::error::{CommandError, MigrateError};
use zallet_migrate::exposure::AddressSet;
use zallet_migrate::transactions::{
    assumed_mempool_height, block_height, chain_birthday, consensus_height, decode_transactions,
    insert_script_addresses, lookup_needed, no_scan_birthday, output_addresses,
    transaction_heights, usable_tip, BlockHash, WalletTransaction,
};
use zallet_migrate::transparent::TransparentAddress;

fn hash(n: u8) -> BlockHash {
    BlockHash { bytes: [n; 32] }
}

fn p2pkh(n: u8) -> Vec<u8> {
    [&[0x76, 0xa9, 0x14][..], &[n; 20][..], &[0x88, 0xac][..]].concat()
}

fn p2sh(n: u8) -> Vec<u8> {
    [&[0xa9, 0x14][..], &[n; 20][..], &[0x87][..]].concat()
}

/// A transaction of the oldest version, without inputs and with the given output scripts.
fn raw(scripts: &[Vec<u8>]) -> Vec<u8> {
    let mut bytes = vec![1, 0, 0, 0, 0, scripts.len() as u8];
    for script in scripts {
        bytes.extend_from_slice(&[5, 0, 0, 0, 0, 0, 0, 0]);
        bytes.push(script.len() as u8);
        bytes.extend_from_slice(script);
    }
    bytes.extend_from_slice(&[0, 0, 0, 0]);
    bytes
}

fn tx(block: u8, expiry_height: u32, raw: Vec<u8>) -> WalletTransaction {
    WalletTransaction {
        hash_block: hash(block),
        expiry_height,
        raw,
    }
}

fn upgrades() -> NetworkUpgrades {
    NetworkUpgrades {
        overwinter: Some(10),
        sapling: Some(20),
        blossom: Some(30),
        heartwood: Some(40),
        canopy: Some(50),
        nu5: Some(60),
        nu6: Some(70),
        nu6_1: Some(80),
        nu6_2: None,
        nu6_3: Some(90),
        nu7: None,
    }
}

#[test]
fn branches() {
    let cases = [
        (0, 0),
        (9, 0),
        (10, 0x5ba8_1b19),
        (20, 0x76b8_09bb),
        (39, 0x2bb4_0e60),
        (40, 0xf5b9_230b),
        (50, 0xe9ff_75a6),
        (60, 0xc2d6_d0b4),
        (70, 0xc8e7_1055),
        (80, 0x4dec_4df0),
        (89, 0x4dec_4df0),
        (90, 0x37a5_165b),
        (u32::MAX, 0x37a5_165b),
    ];
    for (height, branch) in cases {
        assert_eq!(branch_for_height(&upgrades(), height), branch);
    }
    let mut later = upgrades();
    later.nu6_2 = Some(85);
    later.nu7 = Some(5);
    assert_eq!(branch_for_height(&later, 5), 0x7719_0ad9);
    later.nu7 = Some(100);
    assert_eq!(branch_for_height(&later, 85), 0x5437_f330);
}

#[test]
fn block_index() {
    let index = vec![(hash(1), 100), (hash(2), 50)];
    assert_eq!(block_height(&index, &hash(1)), Some(100));
    assert_eq!(block_height(&index, &hash(2)), Some(50));
    assert_eq!(block_height(&index, &hash(3)), None);
    assert!(!lookup_needed(&index, &tx(1, 0, vec![])));
    assert!(lookup_needed(&index, &tx(3, 0, vec![])));
    // The null hash stands for no block.
    assert!(!lookup_needed(&index, &tx(0, 0, vec![])));
    let txs = vec![tx(2, 0, vec![]), tx(0, 0, vec![]), tx(1, 0, vec![])];
    assert_eq!(
        transaction_heights(&index, &txs),
        vec![Some(50), None, Some(100)]
    );
}

#[test]
fn birthdays_on_the_chain() {
    assert_eq!(usable_tip(0), None);
    assert_eq!(usable_tip(1), Some(1));
    let heights = vec![None, Some(700), Some(600), None, Some(800)];
    assert_eq!(chain_birthday(&heights, Some(1000), 500), 600);
    assert_eq!(chain_birthday(&heights, Some(1000), 650), 650);
    assert_eq!(chain_birthday(&vec![None, None], Some(1000), 500), 1000);
    assert_eq!(chain_birthday(&vec![], Some(100), 500), 500);
    assert_eq!(chain_birthday(&vec![], None, 500), 500);
}

#[test]
fn birthdays_off_the_chain() {
    let txs = vec![tx(1, 0, vec![]), tx(1, 9000, vec![]), tx(1, 7000, vec![])];
    assert_eq!(no_scan_birthday(&txs, 500), 6000);
    assert_eq!(no_scan_birthday(&txs, 6500), 6500);
    assert_eq!(no_scan_birthday(&vec![tx(1, 300, vec![])], 5), 5);
    assert_eq!(no_scan_birthday(&vec![tx(1, 300, vec![])], 0), 0);
    assert_eq!(no_scan_birthday(&vec![tx(1, 0, vec![])], 500), 500);
    assert_eq!(no_scan_birthday(&vec![], 500), 500);
}

#[test]
fn heights_for_rules() {
    assert_eq!(consensus_height(Some(5), 9, Some(7)).unwrap(), 5);
    assert_eq!(consensus_height(None, 9, Some(7)).unwrap(), 9);
    assert_eq!(consensus_height(None, 0, Some(7)).unwrap(), 7);
    match CommandError::from(consensus_height(None, 0, None).unwrap_err()) {
        CommandError::Message(message) => {
            assert_eq!(message.id, "err-migrate-wallet-all-unmined");
            assert!(message.args.is_empty());
        }
        CommandError::Generic => panic!("a message was expected"),
    }
    assert_eq!(
        assumed_mempool_height(&vec![Some(3), None, Some(8)]),
        Some(9)
    );
    assert_eq!(assumed_mempool_height(&vec![None]), None);
    assert_eq!(
        assumed_mempool_height(&vec![Some(u32::MAX)]),
        Some(u32::MAX)
    );
}

#[test]
fn scripts_pay_to_addresses() {
    let mut addresses = AddressSet::new();
    let mut nearly = p2sh(3);
    nearly[22] = 0x88;
    let mut short = p2pkh(4);
    short.remove(10);
    insert_script_addresses(
        &mut addresses,
        &vec![p2pkh(1), p2sh(2), p2pkh(1), nearly, short, vec![], vec![0x6a]],
    );
    assert_eq!(addresses.len(), 2);
    assert!(addresses.contains(&TransparentAddress::PublicKeyHash([1; 20])));
    assert!(addresses.contains(&TransparentAddress::ScriptHash([2; 20])));
}

#[test]
fn transactions_pay_to_addresses() {
    let txs = vec![
        tx(0, 0, raw(&[p2pkh(1), p2sh(2)])),
        tx(1, 0, raw(&[])),
        tx(2, 0, raw(&[p2pkh(1), vec![0x51], p2pkh(3)])),
    ];
    let addresses = output_addresses(&txs).unwrap();
    assert_eq!(addresses.len(), 3);
    assert!(addresses.contains(&TransparentAddress::PublicKeyHash([1; 20])));
    assert!(addresses.contains(&TransparentAddress::ScriptHash([2; 20])));
    assert!(addresses.contains(&TransparentAddress::PublicKeyHash([3; 20])));
    assert!(matches!(
        output_addresses(&vec![tx(0, 0, raw(&[])), tx(0, 0, vec![1, 0])]),
        Err(MigrateError::Io(_))
    ));
}

#[test]
fn transactions_are_decoded() {
    let txs = vec![
        tx(1, 0, raw(&[p2pkh(1)])),
        tx(0, 45, raw(&[p2pkh(2)])),
        tx(0, 0, raw(&[p2pkh(3)])),
    ];
    let heights = vec![Some(25), None, None];
    let decoded = decode_transactions(&txs, &heights, &upgrades()).unwrap();
    assert_eq!(decoded.len(), 3);
    let branches: Vec<u32> = decoded
        .iter()
        .map(|tx| u32::from(tx.transaction.consensus_branch_id()))
        .collect();
    assert_eq!(branches, vec![0x76b8_09bb, 0xf5b9_230b, 0x76b8_09bb]);
    let mined: Vec<Option<u32>> = decoded.iter().map(|tx| tx.mined_height).collect();
    assert_eq!(mined, heights);
    assert_eq!(
        decoded[1].transaction.transparent_bundle().unwrap().vout.len(),
        1
    );
}

#[test]
fn transactions_that_cannot_be_decoded() {
    let unmined = vec![tx(0, 0, raw(&[]))];
    assert!(matches!(
        decode_transactions(&unmined, &vec![None], &upgrades()),
        Err(MigrateError::Wrapped(CommandError::Message(message)))
            if message.id == "err-migrate-wallet-all-unmined"
    ));
    let broken = vec![tx(1, 0, vec![0, 0, 0, 0])];
    assert!(matches!(
        decode_transactions(&broken, &vec![Some(25)], &upgrades()),
        Err(MigrateError::Io(_))
    ));
}
