use helium_etl_lite::block_processor::Record;
use helium_etl_lite::chain::{Block, Reward, Transaction, TxnRef};
use helium_etl_lite::filter::Filters;
use helium_etl_lite::follower::{create_follower_info, load_follower_info, Follower, Info};
use helium_etl_lite::{EtlMode, Error};

fn node_block(height: u64) -> (Block, Vec<Option<Transaction>>) {
    let block = Block {
        height,
        hash: format!("b{}", height),
        time: 1000 + height,
        transactions: vec![TxnRef { hash: format!("r{}", height), type_tag: "rewards_v2".to_string() }],
    };
    let fetched = vec![Some(Transaction::RewardsV2 {
        rewards: vec![Reward {
            account: Some("a1".to_string()),
            gateway: Some("g1".to_string()),
            reward_type: "poc_challengers".to_string(),
            amount: 5_000_000,
        }],
        start_epoch: height - 1,
    })];
    (block, fetched)
}

/// One scheduled cycle against a node at `chain` that serves every block.
fn cycle(follower: &mut Follower, chain: u64) -> Option<Vec<Record>> {
    let target = follower.run(chain)?;
    let (block, fetched) = node_block(target);
    let result = follower.start_block_processing(target).process(&block, &fetched);
    follower.finish_block_processing(target, result.is_ok());
    result.ok()
}

#[test]
fn one_block_per_cycle_end_to_end() {
    let info = Info { height: 97, first_block: 10 };
    let mut follower = Follower::new(EtlMode::Rewards, &info, Filters { accounts: vec![], gateways: vec![] });
    let records = cycle(&mut follower, 100).unwrap();
    assert_eq!(follower.height, 98);
    let rows: Vec<_> = records
        .iter()
        .filter(|r| matches!(r, Record::Reward(row) if row.block == 98))
        .collect();
    assert_eq!(rows.len(), 1);
    assert!(matches!(rows[0], Record::Reward(row) if row.amount == 5_000_000));
    assert_eq!(records.last(), Some(&Record::Checkpoint(98)));
    cycle(&mut follower, 100).unwrap();
    assert_eq!(follower.height, 99);
    assert_eq!(follower.first_block, 10);
}

#[test]
fn no_work_when_chain_is_not_ahead() {
    let info = Info { height: 100, first_block: 1 };
    let follower = Follower::new(EtlMode::Full, &info, Filters { accounts: vec![], gateways: vec![] });
    assert_eq!(follower.run(100), None);
    assert_eq!(follower.run(99), None);
    assert_eq!(follower.run(101), Some(101));
}

#[test]
fn failed_ingestion_keeps_height() {
    let info = Info { height: 7, first_block: 1 };
    let mut follower = Follower::new(EtlMode::Rewards, &info, Filters { accounts: vec![], gateways: vec![] });
    follower.finish_block_processing(8, false);
    assert_eq!(follower.height, 7);
    follower.finish_block_processing(9, true);
    assert_eq!(follower.height, 7);
    follower.finish_block_processing(8, true);
    assert_eq!(follower.height, 8);
    assert_eq!(follower.info(), Info { height: 8, first_block: 1 });
}

#[test]
fn initial_checkpoint_row() {
    assert_eq!(create_follower_info(50), Ok((49, 50)));
    assert_eq!(create_follower_info(1), Ok((0, 1)));
    assert_eq!(create_follower_info(0), Err(Error::OutOfRange));
    assert_eq!(create_follower_info(i64::MAX as u64 + 1), Err(Error::OutOfRange));
}

#[test]
fn checkpoint_loaded_from_rows() {
    assert_eq!(load_follower_info(&vec![]), Err(Error::NoFollowerInfo));
    assert_eq!(load_follower_info(&vec![(97, 3)]), Ok(Info { height: 97, first_block: 3 }));
    assert_eq!(load_follower_info(&vec![(-1, 3)]), Err(Error::OutOfRange));
    assert_eq!(load_follower_info(&vec![(5, 3), (9, 9)]), Ok(Info { height: 5, first_block: 3 }));
}
