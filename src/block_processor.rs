use vstd::prelude::*;
use crate::chain::{is_reward_epoch, reward_epoch_tag, Block, Reward, Transaction, TxnRef};
use crate::error::Error;
use crate::filter::{admits, admitted, Filters};
use crate::reward::{fits_i64, reward_row, reward_row_fits, reward_row_of, RewardRow, RewardRowView};
use crate::settings::EtlMode;
use crate::transaction::{transaction_row, TransactionRow, TransactionRowView};

verus! {

/// One write of a block's unit of work, in the order it is executed.
#[derive(Debug, Clone, PartialEq, Eq)]
pub enum Record {
    Reward(RewardRow),
    Transaction(TransactionRow),
    /// Set the checkpoint's `height`.
    Checkpoint(i64),
}

pub enum RecordView {
    Reward(RewardRowView),
    Transaction(TransactionRowView),
    Checkpoint(int),
}

impl View for Record {
    type V = RecordView;

    open spec fn view(&self) -> RecordView {
        match self {
            Record::Reward(r) => RecordView::Reward(r@),
            Record::Transaction(t) => RecordView::Transaction(t@),
            Record::Checkpoint(h) => RecordView::Checkpoint(*h as int),
        }
    }
}

pub open spec fn record_views(v: Seq<Record>) -> Seq<RecordView> {
    v.map_values(|r: Record| r@)
}

/// The records of the kept rewards of one reward-epoch transaction.
pub open spec fn rewards_plan(
    mode: EtlMode,
    f: Filters,
    h: u64,
    time: u64,
    hash: Seq<char>,
    rewards: Seq<Reward>,
) -> Result<Seq<RecordView>, Error>
    decreases rewards.len(),
{
    if rewards.len() == 0 {
        Ok(Seq::empty())
    } else {
        match rewards_plan(mode, f, h, time, hash, rewards.drop_last()) {
            Err(e) => Err(e),
            Ok(prev) => {
                let r = rewards.last();
                if !admitted(r, mode, f) {
                    Ok(prev)
                } else if reward_row_fits(h, time, r) {
                    Ok(prev.push(RecordView::Reward(reward_row_of(h, time, hash, r))))
                } else {
                    Err(Error::OutOfRange)
                }
            },
        }
    }
}

/// A failure on a prefix of the rewards is the failure of all of them.
proof fn lemma_rewards_plan_err_prefix(
    mode: EtlMode,
    f: Filters,
    h: u64,
    time: u64,
    hash: Seq<char>,
    rewards: Seq<Reward>,
    i: int,
)
    requires
        0 <= i <= rewards.len(),
        rewards_plan(mode, f, h, time, hash, rewards.subrange(0, i)) is Err,
    ensures
        rewards_plan(mode, f, h, time, hash, rewards) == rewards_plan(
            mode,
            f,
            h,
            time,
            hash,
            rewards.subrange(0, i),
        ),
    decreases rewards.len() - i,
{
    if i < rewards.len() {
        let next = rewards.subrange(0, i + 1);
        assert(next.drop_last() =~= rewards.subrange(0, i));
        lemma_rewards_plan_err_prefix(mode, f, h, time, hash, rewards, i + 1);
    } else {
        assert(rewards.subrange(0, i) =~= rewards);
    }
}

/// Whether a transaction of the block has to be fetched under `mode`.
pub open spec fn needs_fetch(mode: EtlMode, txn: TxnRef) -> bool {
    txn.type_tag@ == reward_epoch_tag() || mode == EtlMode::Full
}

/// The records of one transaction of the block, given what was fetched for it.
pub open spec fn txn_plan(
    mode: EtlMode,
    f: Filters,
    h: u64,
    time: u64,
    txn: TxnRef,
    fetched: Option<Transaction>,
) -> Result<Seq<RecordView>, Error> {
    let rewards_part = if txn.type_tag@ == reward_epoch_tag() {
        match fetched {
            Some(Transaction::RewardsV2 { rewards, .. }) => rewards_plan(
                mode,
                f,
                h,
                time,
                txn.hash@,
                rewards@,
            ),
            Some(Transaction::Other) => Err(Error::UnexpectedTransaction),
            None => Err(Error::MissingTransaction),
        }
    } else {
        Ok(Seq::empty())
    };
    match rewards_part {
        Err(e) => Err(e),
        Ok(rs) => if mode != EtlMode::Full {
            Ok(rs)
        } else if fetched is None {
            Err(Error::MissingTransaction)
        } else if fits_i64(h) {
            Ok(
                rs.push(
                    RecordView::Transaction(
                        TransactionRowView { block: h as int, hash: txn.hash@, type_tag: txn.type_tag@ },
                    ),
                ),
            )
        } else {
            Err(Error::OutOfRange)
        },
    }
}

/// What was fetched for the transaction at `i`; nothing when absent.
pub open spec fn fetched_at(fetched: Seq<Option<Transaction>>, i: int) -> Option<Transaction> {
    if 0 <= i < fetched.len() {
        fetched[i]
    } else {
        None
    }
}

/// The records of the block's transactions, in block order.
pub open spec fn block_plan(
    mode: EtlMode,
    f: Filters,
    h: u64,
    time: u64,
    txns: Seq<TxnRef>,
    fetched: Seq<Option<Transaction>>,
) -> Result<Seq<RecordView>, Error>
    decreases txns.len(),
{
    if txns.len() == 0 {
        Ok(Seq::empty())
    } else {
        match block_plan(mode, f, h, time, txns.drop_last(), fetched) {
            Err(e) => Err(e),
            Ok(prev) => match txn_plan(
                mode,
                f,
                h,
                time,
                txns.last(),
                fetched_at(fetched, txns.len() - 1),
            ) {
                Err(e) => Err(e),
                Ok(rs) => Ok(prev + rs),
            },
        }
    }
}

/// A failure on a prefix of the transactions is the failure of the block.
proof fn lemma_block_plan_err_prefix(
    mode: EtlMode,
    f: Filters,
    h: u64,
    time: u64,
    txns: Seq<TxnRef>,
    fetched: Seq<Option<Transaction>>,
    i: int,
)
    requires
        0 <= i <= txns.len(),
        block_plan(mode, f, h, time, txns.subrange(0, i), fetched) is Err,
    ensures
        block_plan(mode, f, h, time, txns, fetched) == block_plan(
            mode,
            f,
            h,
            time,
            txns.subrange(0, i),
            fetched,
        ),
    decreases txns.len() - i,
{
    if i < txns.len() {
        let next = txns.subrange(0, i + 1);
        assert(next.drop_last() =~= txns.subrange(0, i));
        lemma_block_plan_err_prefix(mode, f, h, time, txns, fetched, i + 1);
    } else {
        assert(txns.subrange(0, i) =~= txns);
    }
}

/// Whether every record is a row of block `h` (no checkpoint update).
pub open spec fn rows_of_block(rs: Seq<RecordView>, h: int) -> bool {
    forall|i: int|
        0 <= i < rs.len() ==> match #[trigger] rs[i] {
            RecordView::Reward(r) => r.block == h,
            RecordView::Transaction(t) => t.block == h,
            RecordView::Checkpoint(_) => false,
        }
}

proof fn lemma_rewards_plan_rows(
    mode: EtlMode,
    f: Filters,
    h: u64,
    time: u64,
    hash: Seq<char>,
    rewards: Seq<Reward>,
)
    ensures
        rewards_plan(mode, f, h, time, hash, rewards) matches Ok(rs) ==> rows_of_block(rs, h as int),
    decreases rewards.len(),
{
    if rewards.len() > 0 {
        lemma_rewards_plan_rows(mode, f, h, time, hash, rewards.drop_last());
    }
}

proof fn lemma_block_plan_rows(
    mode: EtlMode,
    f: Filters,
    h: u64,
    time: u64,
    txns: Seq<TxnRef>,
    fetched: Seq<Option<Transaction>>,
)
    ensures
        block_plan(mode, f, h, time, txns, fetched) matches Ok(rs) ==> rows_of_block(rs, h as int),
    decreases txns.len(),
{
    if txns.len() > 0 {
        lemma_block_plan_rows(mode, f, h, time, txns.drop_last(), fetched);
        let txn = txns.last();
        let ft = fetched_at(fetched, txns.len() - 1);
        if let Some(Transaction::RewardsV2 { rewards, .. }) = ft {
            lemma_rewards_plan_rows(mode, f, h, time, txn.hash@, rewards@);
        }
        if let (Ok(prev), Ok(rs)) = (
            block_plan(mode, f, h, time, txns.drop_last(), fetched),
            txn_plan(mode, f, h, time, txn, ft),
        ) {
            assert(rows_of_block(rs, h as int));
            assert(rows_of_block(prev + rs, h as int)) by {
                assert forall|i: int| 0 <= i < (prev + rs).len() implies match #[trigger] (prev
                    + rs)[i] {
                    RecordView::Reward(r) => r.block == h,
                    RecordView::Transaction(t) => t.block == h,
                    RecordView::Checkpoint(_) => false,
                } by {
                    if i < prev.len() {
                        assert((prev + rs)[i] == prev[i]);
                    } else {
                        assert((prev + rs)[i] == rs[i - prev.len()]);
                    }
                }
            }
        }
    }
}

/// The unit of work for block `h` writes rows of block `h` only, and ends by
/// moving the stored checkpoint to `h`: the checkpoint moves with the rows,
/// in the same commit, and nowhere else.
pub proof fn lemma_unit_ends_with_checkpoint(
    mode: EtlMode,
    f: Filters,
    h: u64,
    block: Block,
    fetched: Seq<Option<Transaction>>,
)
    requires
        ingest_plan(mode, f, h, block, fetched) is Ok,
    ensures
        ({
            let rs = ingest_plan(mode, f, h, block, fetched)->Ok_0;
            &&& rs.len() > 0
            &&& rs.last() == RecordView::Checkpoint(h as int)
            &&& rows_of_block(rs.drop_last(), h as int)
        }),
{
    lemma_block_plan_rows(mode, f, h, block.time, block.transactions@, fetched);
    let rs = ingest_plan(mode, f, h, block, fetched)->Ok_0;
    let prev = block_plan(mode, f, h, block.time, block.transactions@, fetched)->Ok_0;
    assert(rs.drop_last() =~= prev);
}

/// Running the unit of work for a height again, after an attempt that was
/// rolled back, writes exactly the records of a single run: they depend on
/// the mode, the allow-list, the height, the block and the fetched
/// transactions only.
pub proof fn lemma_rerun_writes_same_records(
    p1: BlockProcessor,
    p2: BlockProcessor,
    block: Block,
    fetched: Seq<Option<Transaction>>,
)
    requires
        p1.mode == p2.mode,
        p1.height == p2.height,
        *p1.filters == *p2.filters,
    ensures
        ingest_plan(p1.mode, *p1.filters, p1.height, block, fetched) == ingest_plan(
            p2.mode,
            *p2.filters,
            p2.height,
            block,
            fetched,
        ),
{
}

/// The whole unit of work for block `h`: the block's records, then the
/// checkpoint update to `h`.
pub open spec fn ingest_plan(
    mode: EtlMode,
    f: Filters,
    h: u64,
    block: Block,
    fetched: Seq<Option<Transaction>>,
) -> Result<Seq<RecordView>, Error> {
    match block_plan(mode, f, h, block.time, block.transactions@, fetched) {
        Err(e) => Err(e),
        Ok(rs) => if fits_i64(h) {
            Ok(rs.push(RecordView::Checkpoint(h as int)))
        } else {
            Err(Error::OutOfRange)
        },
    }
}

/// Ingests the block at one height: decides, from the block and the
/// transactions fetched for it, every write of the unit of work.
pub struct BlockProcessor<'a> {
    pub mode: EtlMode,
    pub height: u64,
    pub filters: &'a Filters,
}

impl<'a> BlockProcessor<'a> {
    pub fn new(mode: EtlMode, height: u64, filters: &'a Filters) -> (r: Self)
        ensures
            r.mode == mode,
            r.height == height,
            *r.filters == *filters,
    {
        BlockProcessor { mode, height, filters }
    }

    /// Whether the transaction has to be fetched before `process`: every
    /// reward-epoch transaction, and in `Full` mode every transaction.
    pub fn needs_transaction(&self, txn: &TxnRef) -> (r: bool)
        ensures
            r == needs_fetch(self.mode, *txn),
    {
        let mode_full = match self.mode {
            EtlMode::Full => true,
            _ => false,
        };
        is_reward_epoch(&txn.type_tag) || mode_full
    }

    /// Appends the records of the kept rewards of one transaction.
    fn load_rewards(&self, time: u64, hash: &String, rewards: &Vec<Reward>, out: &mut Vec<Record>)
        -> (r: Result<(), Error>)
        ensures
            match rewards_plan(self.mode, *self.filters, self.height, time, hash@, rewards@) {
                Ok(rs) => r is Ok && record_views(final(out)@) == record_views(old(out)@) + rs,
                Err(e) => r == Err::<(), Error>(e),
            },
    {
        let ghost start = record_views(out@);
        assert(rewards@.subrange(0, 0).len() == 0);
        assert(record_views(out@).subrange(start.len() as int, start.len() as int) =~= Seq::empty());
        assert(start =~= record_views(out@).subrange(0, start.len() as int));
        let mut i: usize = 0;
        while i < rewards.len()
            invariant
                0 <= i <= rewards.len(),
                start == record_views(old(out)@),
                rewards_plan(
                    self.mode,
                    *self.filters,
                    self.height,
                    time,
                    hash@,
                    rewards@.subrange(0, i as int),
                ) == Ok::<Seq<RecordView>, Error>(record_views(out@).subrange(
                    start.len() as int,
                    record_views(out@).len() as int,
                )),
                start == record_views(out@).subrange(0, start.len() as int),
                record_views(out@).len() >= start.len(),
            decreases rewards.len() - i,
        {
            let ghost next = rewards@.subrange(0, i as int + 1);
            assert(next.drop_last() =~= rewards@.subrange(0, i as int));
            assert(next.last() == rewards@[i as int]);
            let r = &rewards[i];
            if admits(r, self.mode, self.filters) {
                match reward_row(self.height, time, hash, r) {
                    Ok(row) => {
                        let ghost before = record_views(out@);
                        out.push(Record::Reward(row));
                        assert(record_views(out@) =~= before.push(RecordView::Reward(row@)));
                        assert(record_views(out@).subrange(start.len() as int, record_views(out@).len() as int)
                            =~= before.subrange(start.len() as int, before.len() as int).push(
                            RecordView::Reward(row@),
                        ));
                        assert(start =~= record_views(out@).subrange(0, start.len() as int));
                    },
                    Err(e) => {
                        proof {
                            lemma_rewards_plan_err_prefix(
                                self.mode,
                                *self.filters,
                                self.height,
                                time,
                                hash@,
                                rewards@,
                                i as int + 1,
                            );
                        }
                        return Err(e);
                    },
                }
            }
            i = i + 1;
        }
        assert(rewards@.subrange(0, rewards@.len() as int) =~= rewards@);
        assert(record_views(out@) =~= start + record_views(out@).subrange(
            start.len() as int,
            record_views(out@).len() as int,
        ));
        Ok(())
    }

    /// Appends the records of one transaction of the block.
    fn load_transaction(
        &self,
        time: u64,
        txn: &TxnRef,
        fetched: &Option<Transaction>,
        out: &mut Vec<Record>,
    ) -> (r: Result<(), Error>)
        ensures
            match txn_plan(self.mode, *self.filters, self.height, time, *txn, *fetched) {
                Ok(rs) => r is Ok && record_views(final(out)@) == record_views(old(out)@) + rs,
                Err(e) => r == Err::<(), Error>(e),
            },
    {
        if is_reward_epoch(&txn.type_tag) {
            match fetched {
                Some(Transaction::RewardsV2 { rewards, .. }) => {
                    let res = self.load_rewards(time, &txn.hash, rewards, out);
                    if res.is_err() {
                        return res;
                    }
                },
                Some(Transaction::Other) => {
                    return Err(Error::UnexpectedTransaction);
                },
                None => {
                    return Err(Error::MissingTransaction);
                },
            }
        }
        let ghost mid = record_views(out@);
        match self.mode {
            EtlMode::Full => {
                if fetched.is_none() {
                    return Err(Error::MissingTransaction);
                }
                match transaction_row(self.height, &txn.hash, &txn.type_tag) {
                    Ok(row) => {
                        out.push(Record::Transaction(row));
                        assert(record_views(out@) =~= mid.push(RecordView::Transaction(row@)));
                        assert(record_views(out@) =~= record_views(old(out)@) + (mid.subrange(
                            record_views(old(out)@).len() as int,
                            mid.len() as int,
                        )).push(RecordView::Transaction(row@)));
                        Ok(())
                    },
                    Err(e) => Err(e),
                }
            },
            _ => {
                assert(mid =~= record_views(old(out)@) + mid.subrange(
                    record_views(old(out)@).len() as int,
                    mid.len() as int,
                ));
                Ok(())
            },
        }
    }

    /// The records of the block's transactions, in block order. `fetched[i]`
    /// is what was fetched for the block's transaction at `i`, if anything.
    pub fn load_block(&self, block: &Block, fetched: &Vec<Option<Transaction>>) -> (r: Result<
        Vec<Record>,
        Error,
    >)
        ensures
            match block_plan(
                self.mode,
                *self.filters,
                self.height,
                block.time,
                block.transactions@,
                fetched@,
            ) {
                Ok(rs) => r matches Ok(v) && record_views(v@) == rs,
                Err(e) => r matches Err(e2) && e2 == e,
            },
    {
        let mut out: Vec<Record> = Vec::new();
        let txns = &block.transactions;
        let mut i: usize = 0;
        assert(txns@.subrange(0, 0).len() == 0);
        assert(record_views(out@) =~= Seq::empty());
        while i < txns.len()
            invariant
                0 <= i <= txns.len(),
                txns == &block.transactions,
                block_plan(
                    self.mode,
                    *self.filters,
                    self.height,
                    block.time,
                    txns@.subrange(0, i as int),
                    fetched@,
                ) == Ok::<Seq<RecordView>, Error>(record_views(out@)),
            decreases txns.len() - i,
        {
            let ghost next = txns@.subrange(0, i as int + 1);
            assert(next.drop_last() =~= txns@.subrange(0, i as int));
            assert(next.last() == txns@[i as int]);
            let none: Option<Transaction> = None;
            let f = if i < fetched.len() {
                &fetched[i]
            } else {
                &none
            };
            assert(*f == fetched_at(fetched@, i as int));
            let res = self.load_transaction(block.time, &txns[i], f, &mut out);
            match res {
                Ok(()) => {},
                Err(e) => {
                    proof {
                        lemma_block_plan_err_prefix(
                            self.mode,
                            *self.filters,
                            self.height,
                            block.time,
                            txns@,
                            fetched@,
                            i as int + 1,
                        );
                    }
                    return Err(e);
                },
            }
            i = i + 1;
        }
        assert(txns@.subrange(0, txns@.len() as int) =~= txns@);
        Ok(out)
    }

    /// The whole unit of work for the block at `height`: the block's records,
    /// then the checkpoint update to `height`. Executed in one storage
    /// transaction; on any error nothing of it is committed.
    pub fn process(&self, block: &Block, fetched: &Vec<Option<Transaction>>) -> (r: Result<
        Vec<Record>,
        Error,
    >)
        ensures
            match ingest_plan(self.mode, *self.filters, self.height, *block, fetched@) {
                Ok(rs) => r matches Ok(v) && record_views(v@) == rs,
                Err(e) => r matches Err(e2) && e2 == e,
            },
    {
        match self.load_block(block, fetched) {
            Err(e) => Err(e),
            Ok(mut out) => {
                match self.update_follower_info_height() {
                    Ok(rec) => {
                        let ghost before = record_views(out@);
                        out.push(rec);
                        assert(record_views(out@) =~= before.push(rec@));
                        Ok(out)
                    },
                    Err(e) => Err(e),
                }
            },
        }
    }

    /// The write that moves the checkpoint to `height`.
    pub fn update_follower_info_height(&self) -> (r: Result<Record, Error>)
        ensures
            r is Ok <==> fits_i64(self.height),
            r matches Ok(rec) ==> rec@ == RecordView::Checkpoint(self.height as int),
            r matches Err(e) ==> e == Error::OutOfRange,
    {
        if self.height > i64::MAX as u64 {
            Err(Error::OutOfRange)
        } else {
            Ok(Record::Checkpoint(self.height as i64))
        }
    }
}

} // verus!
