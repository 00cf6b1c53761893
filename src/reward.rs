use vstd::prelude::*;
use crate::chain::Reward;
use crate::error::Error;

verus! {

/// The identity stored for an absent account or gateway: a network-level
/// overage payout that belongs to no party.
pub open spec fn overage_identity() -> Seq<char> {
    seq!['1', 'W', 'h', '4', 'b', 'h']
}

/// The identity stored for an optional one.
pub open spec fn stored_identity(id: Option<String>) -> Seq<char> {
    match id {
        Some(s) => s@,
        None => overage_identity(),
    }
}

/// Whether an unsigned value fits the store's signed 64-bit integers.
pub open spec fn fits_i64(n: u64) -> bool {
    n <= i64::MAX
}

/// A row of the `rewards` table.
#[derive(Debug, Clone, PartialEq, Eq)]
pub struct RewardRow {
    pub block: i64,
    pub transaction_hash: String,
    pub time: i64,
    pub account: String,
    pub gateway: String,
    pub amount: i64,
    pub reward_type: String,
}

pub struct RewardRowView {
    pub block: int,
    pub transaction_hash: Seq<char>,
    pub time: int,
    pub account: Seq<char>,
    pub gateway: Seq<char>,
    pub amount: int,
    pub reward_type: Seq<char>,
}

impl View for RewardRow {
    type V = RewardRowView;

    open spec fn view(&self) -> RewardRowView {
        RewardRowView {
            block: self.block as int,
            transaction_hash: self.transaction_hash@,
            time: self.time as int,
            account: self.account@,
            gateway: self.gateway@,
            amount: self.amount as int,
            reward_type: self.reward_type@,
        }
    }
}

/// Whether a reward of the block at `block`, stamped `time`, can be stored.
pub open spec fn reward_row_fits(block: u64, time: u64, r: Reward) -> bool {
    fits_i64(block) && fits_i64(time) && fits_i64(r.amount)
}

/// The row stored for reward `r` of transaction `hash` in block `block`.
pub open spec fn reward_row_of(block: u64, time: u64, hash: Seq<char>, r: Reward) -> RewardRowView {
    RewardRowView {
        block: block as int,
        transaction_hash: hash,
        time: time as int,
        account: stored_identity(r.account),
        gateway: stored_identity(r.gateway),
        amount: r.amount as int,
        reward_type: r.reward_type@,
    }
}

/// The identity to store: the given one, or the overage identity.
pub fn identity_or_overage(id: &Option<String>) -> (r: String)
    ensures
        r@ == stored_identity(*id),
{
    match id {
        Some(s) => s.clone(),
        None => {
            let o = String::from_str("1Wh4bh");
            proof {
                reveal_strlit("1Wh4bh");
                assert(o@ =~= overage_identity());
            }
            o
        },
    }
}

/// Builds the `rewards` row for one reward. Fails with `OutOfRange` when the
/// block, the time or the amount does not fit a signed 64-bit integer.
pub fn reward_row(block: u64, time: u64, hash: &String, reward: &Reward) -> (r: Result<
    RewardRow,
    Error,
>)
    ensures
        r is Ok <==> reward_row_fits(block, time, *reward),
        r matches Ok(row) ==> row@ == reward_row_of(block, time, hash@, *reward),
        r matches Err(e) ==> e == Error::OutOfRange,
{
    if block > i64::MAX as u64 || time > i64::MAX as u64 || reward.amount > i64::MAX as u64 {
        return Err(Error::OutOfRange);
    }
    Ok(
        RewardRow {
            block: block as i64,
            transaction_hash: hash.clone(),
            time: time as i64,
            account: identity_or_overage(&reward.account),
            gateway: identity_or_overage(&reward.gateway),
            amount: reward.amount as i64,
            reward_type: reward.reward_type.clone(),
        },
    )
}

/// A reward without an account is stored under the overage identity, which
/// is never empty; its gateway is stored as given.
pub proof fn lemma_absent_account_gets_overage(block: u64, time: u64, hash: Seq<char>, r: Reward)
    requires
        r.account is None,
    ensures
        reward_row_of(block, time, hash, r).account == overage_identity(),
        reward_row_of(block, time, hash, r).account.len() > 0,
        r.gateway matches Some(g) ==> reward_row_of(block, time, hash, r).gateway == g@,
{
}

} // verus!
