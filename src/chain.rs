use vstd::prelude::*;

verus! {

/// The transaction type tag that marks a reward-epoch transaction.
pub open spec fn reward_epoch_tag() -> Seq<char> {
    seq!['r', 'e', 'w', 'a', 'r', 'd', 's', '_', 'v', '2']
}

/// Whether a type tag names a reward-epoch transaction.
pub fn is_reward_epoch(type_tag: &String) -> (r: bool)
    ensures
        r == (type_tag@ == reward_epoch_tag()),
{
    let tag = String::from_str("rewards_v2");
    proof {
        reveal_strlit("rewards_v2");
        assert(tag@ =~= reward_epoch_tag());
    }
    *type_tag == tag
}

/// One reward payout of a reward-epoch transaction.
#[derive(Debug, Clone, PartialEq, Eq)]
pub struct Reward {
    pub account: Option<String>,
    pub gateway: Option<String>,
    pub reward_type: String,
    pub amount: u64,
}

/// A transaction as a block lists it: its hash and its type tag.
#[derive(Debug, Clone, PartialEq, Eq)]
pub struct TxnRef {
    pub hash: String,
    pub type_tag: String,
}

/// A block as fetched from the node.
#[derive(Debug, Clone, PartialEq, Eq)]
pub struct Block {
    pub height: u64,
    pub hash: String,
    pub time: u64,
    pub transactions: Vec<TxnRef>,
}

/// A transaction fetched by hash. Only the reward-epoch variant is read;
/// every other variant is carried as an opaque payload by the caller.
#[derive(Debug, Clone, PartialEq, Eq)]
pub enum Transaction {
    RewardsV2 { rewards: Vec<Reward>, start_epoch: u64 },
    Other,
}

} // verus!
