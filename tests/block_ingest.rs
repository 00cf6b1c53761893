use helium_etl_lite::block_processor::{BlockProcessor, Record};
use helium_etl_lite::chain::{is_reward_epoch, Block, Reward, Transaction, TxnRef};
use helium_etl_lite::filter::Filters;
use helium_etl_lite::reward::{identity_or_overage, reward_row};
use helium_etl_lite::transaction::transaction_row;
use helium_etl_lite::{EtlMode, Error};

fn txn(hash: &str, tag: &str) -> TxnRef {
    TxnRef { hash: hash.to_string(), type_tag: tag.to_string() }
}

fn reward(account: Option<&str>, gateway: Option<&str>, amount: u64) -> Reward {
    Reward {
        account: account.map(|s| s.to_string()),
        gateway: gateway.map(|s| s.to_string()),
        reward_type: "securities".to_string(),
        amount,
    }
}

fn no_filters() -> Filters {
    Filters { accounts: vec![], gateways: vec![] }
}

fn epoch_block(height: u64) -> (Block, Vec<Option<Transaction>>) {
    let block = Block {
        height,
        hash: format!("block{}", height),
        time: 1_600_000_000 + height,
        transactions: vec![txn(&format!("rw{}", height), "rewards_v2")],
    };
    let fetched = vec![Some(Transaction::RewardsV2 {
        rewards: vec![reward(Some("a1"), Some("g1"), 5_000_000)],
        start_epoch: height - 30,
    })];
    (block, fetched)
}

#[test]
fn reward_epoch_tag_is_recognised() {
    assert!(is_reward_epoch(&"rewards_v2".to_string()));
    assert!(!is_reward_epoch(&"payment_v1".to_string()));
    assert!(!is_reward_epoch(&"rewards_v1".to_string()));
}

#[test]
fn absent_account_is_stored_as_overage_identity() {
    let r = reward(None, Some("g1"), 10);
    let row = reward_row(98, 1000, &"h1".to_string(), &r).unwrap();
    assert_eq!(row.account, "1Wh4bh");
    assert!(!row.account.is_empty());
    assert_eq!(row.gateway, "g1");
    assert_eq!(row.block, 98);
    assert_eq!(row.time, 1000);
    assert_eq!(row.amount, 10);
    assert_eq!(row.transaction_hash, "h1");
    assert_eq!(row.reward_type, "securities");
}

#[test]
fn absent_gateway_is_stored_as_overage_identity() {
    let row = reward_row(1, 2, &"h".to_string(), &reward(Some("a1"), None, 3)).unwrap();
    assert_eq!(row.account, "a1");
    assert_eq!(row.gateway, "1Wh4bh");
    assert_eq!(identity_or_overage(&Some("x".to_string())), "x");
    assert_eq!(identity_or_overage(&None), "1Wh4bh");
}

#[test]
fn reward_row_rejects_values_beyond_i64() {
    let big = i64::MAX as u64 + 1;
    assert_eq!(reward_row(big, 0, &"h".to_string(), &reward(None, None, 1)), Err(Error::OutOfRange));
    assert_eq!(reward_row(0, big, &"h".to_string(), &reward(None, None, 1)), Err(Error::OutOfRange));
    assert_eq!(reward_row(0, 0, &"h".to_string(), &reward(None, None, big)), Err(Error::OutOfRange));
    assert!(reward_row(i64::MAX as u64, 0, &"h".to_string(), &reward(None, None, i64::MAX as u64)).is_ok());
}

#[test]
fn transaction_row_fields() {
    let row = transaction_row(7, &"t".to_string(), &"payment_v2".to_string()).unwrap();
    assert_eq!(row.block, 7);
    assert_eq!(row.hash, "t");
    assert_eq!(row.type_tag, "payment_v2");
    assert_eq!(transaction_row(u64::MAX, &"t".to_string(), &"x".to_string()), Err(Error::OutOfRange));
}

#[test]
fn rewards_mode_writes_rewards_then_checkpoint() {
    let f = no_filters();
    let p = BlockProcessor::new(EtlMode::Rewards, 98, &f);
    let (block, fetched) = epoch_block(98);
    let records = p.process(&block, &fetched).unwrap();
    assert_eq!(records.len(), 2);
    match &records[0] {
        Record::Reward(row) => {
            assert_eq!(row.block, 98);
            assert_eq!(row.amount, 5_000_000);
            assert_eq!(row.transaction_hash, "rw98");
            assert_eq!(row.time, 1_600_000_098);
        }
        other => panic!("unexpected record {:?}", other),
    }
    assert_eq!(records[1], Record::Checkpoint(98));
}

#[test]
fn full_mode_also_writes_every_transaction() {
    let f = no_filters();
    let p = BlockProcessor::new(EtlMode::Full, 5, &f);
    let block = Block {
        height: 5,
        hash: "b5".to_string(),
        time: 50,
        transactions: vec![txn("p1", "payment_v1"), txn("r1", "rewards_v2")],
    };
    assert!(p.needs_transaction(&block.transactions[0]));
    let fetched = vec![
        Some(Transaction::Other),
        Some(Transaction::RewardsV2 { rewards: vec![reward(None, None, 1), reward(Some("a"), None, 2)], start_epoch: 1 }),
    ];
    let records = p.process(&block, &fetched).unwrap();
    assert_eq!(records.len(), 5);
    match &records[0] {
        Record::Transaction(t) => {
            assert_eq!(t.hash, "p1");
            assert_eq!(t.type_tag, "payment_v1");
            assert_eq!(t.block, 5);
        }
        other => panic!("unexpected record {:?}", other),
    }
    assert!(matches!(&records[1], Record::Reward(r) if r.amount == 1 && r.account == "1Wh4bh"));
    assert!(matches!(&records[2], Record::Reward(r) if r.amount == 2 && r.account == "a"));
    assert!(matches!(&records[3], Record::Transaction(t) if t.hash == "r1"));
    assert_eq!(records[4], Record::Checkpoint(5));
}

#[test]
fn rewards_mode_skips_other_transactions() {
    let f = no_filters();
    let p = BlockProcessor::new(EtlMode::Rewards, 5, &f);
    let other = txn("p1", "payment_v1");
    assert!(!p.needs_transaction(&other));
    let block = Block { height: 5, hash: "b".to_string(), time: 1, transactions: vec![other] };
    let records = p.process(&block, &vec![None]).unwrap();
    assert_eq!(records, vec![Record::Checkpoint(5)]);
}

#[test]
fn filtered_mode_writes_only_listed_rewards() {
    let f = Filters { accounts: vec!["a1".to_string()], gateways: vec!["g9".to_string()] };
    let p = BlockProcessor::new(EtlMode::Filters, 10, &f);
    let block = Block { height: 10, hash: "b".to_string(), time: 1, transactions: vec![txn("r", "rewards_v2")] };
    let fetched = vec![Some(Transaction::RewardsV2 {
        rewards: vec![
            reward(Some("a1"), None, 1),
            reward(Some("zz"), Some("g9"), 2),
            reward(Some("zz"), Some("g1"), 3),
            reward(None, None, 4),
        ],
        start_epoch: 1,
    })];
    let records = p.process(&block, &fetched).unwrap();
    assert_eq!(records.len(), 3);
    assert!(matches!(&records[0], Record::Reward(r) if r.amount == 1));
    assert!(matches!(&records[1], Record::Reward(r) if r.amount == 2));
    assert_eq!(records[2], Record::Checkpoint(10));
}

#[test]
fn unexpected_variant_aborts_the_block() {
    let f = no_filters();
    let p = BlockProcessor::new(EtlMode::Rewards, 3, &f);
    let block = Block { height: 3, hash: "b".to_string(), time: 1, transactions: vec![txn("r", "rewards_v2")] };
    assert_eq!(p.process(&block, &vec![Some(Transaction::Other)]), Err(Error::UnexpectedTransaction));
}

#[test]
fn missing_transaction_aborts_the_block() {
    let f = no_filters();
    let p = BlockProcessor::new(EtlMode::Rewards, 3, &f);
    let block = Block { height: 3, hash: "b".to_string(), time: 1, transactions: vec![txn("r", "rewards_v2")] };
    assert_eq!(p.process(&block, &vec![None]), Err(Error::MissingTransaction));
    assert_eq!(p.process(&block, &vec![]), Err(Error::MissingTransaction));
}

#[test]
fn height_beyond_i64_aborts_the_block() {
    let f = no_filters();
    let p = BlockProcessor::new(EtlMode::Rewards, u64::MAX, &f);
    let block = Block { height: u64::MAX, hash: "b".to_string(), time: 1, transactions: vec![] };
    assert_eq!(p.process(&block, &vec![]), Err(Error::OutOfRange));
    assert_eq!(p.update_follower_info_height(), Err(Error::OutOfRange));
}

#[test]
fn rerun_after_rollback_writes_same_records() {
    let f = no_filters();
    let (block, fetched) = epoch_block(42);
    let first = BlockProcessor::new(EtlMode::Full, 42, &f).process(&block, &fetched);
    let second = BlockProcessor::new(EtlMode::Full, 42, &f).process(&block, &fetched);
    assert!(first.is_ok());
    assert_eq!(first, second);
}

#[test]
fn custom_error_keeps_message() {
    assert_eq!(Error::custom("boom"), Error::Custom("boom".to_string()));
}
