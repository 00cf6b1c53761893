use vstd::prelude::*;
use crate::chain::Reward;
use crate::settings::EtlMode;

verus! {

/// The allow-list snapshot used in `EtlMode::Filters`.
#[derive(Debug, Clone, PartialEq, Eq)]
pub struct Filters {
    pub accounts: Vec<String>,
    pub gateways: Vec<String>,
}

/// Whether `id` is present and equal to one of the identities of `list`.
pub open spec fn listed(list: Seq<String>, id: Option<String>) -> bool {
    match id {
        Some(s) => exists|i: int| 0 <= i < list.len() && #[trigger] list[i]@ == s@,
        None => false,
    }
}

/// Whether a reward is kept under `mode` with the allow-list `f`.
pub open spec fn admitted(r: Reward, mode: EtlMode, f: Filters) -> bool {
    match mode {
        EtlMode::Rewards | EtlMode::Full => true,
        EtlMode::Challenges => false,
        EtlMode::Filters => listed(f.accounts@, r.account) || listed(f.gateways@, r.gateway),
    }
}

/// The values of the rows whose kind is `kind`, in row order.
pub open spec fn values_of_kind(rows: Seq<(String, String)>, kind: Seq<char>) -> Seq<Seq<char>>
    decreases rows.len(),
{
    if rows.len() == 0 {
        Seq::empty()
    } else {
        let prev = values_of_kind(rows.drop_last(), kind);
        if rows.last().0@ == kind {
            prev.push(rows.last().1@)
        } else {
            prev
        }
    }
}

pub open spec fn account_kind() -> Seq<char> {
    seq!['a', 'c', 'c', 'o', 'u', 'n', 't']
}

pub open spec fn gateway_kind() -> Seq<char> {
    seq!['g', 'a', 't', 'e', 'w', 'a', 'y']
}

pub open spec fn views(v: Seq<String>) -> Seq<Seq<char>> {
    v.map_values(|s: String| s@)
}

/// Whether `id` is present and found in `list`.
fn is_listed(list: &Vec<String>, id: &Option<String>) -> (r: bool)
    ensures
        r == listed(list@, *id),
{
    match id {
        None => false,
        Some(s) => {
            let mut i: usize = 0;
            while i < list.len()
                invariant
                    0 <= i <= list.len(),
                    *id == Some(*s),
                    forall|j: int| 0 <= j < i ==> #[trigger] list@[j]@ != s@,
                decreases list.len() - i,
            {
                if list[i] == *s {
                    assert(list@[i as int]@ == s@);
                    return true;
                }
                i = i + 1;
            }
            false
        },
    }
}

/// Decides whether a reward is loaded. In `Filters` mode the account is
/// checked first, then the gateway; an absent identity never matches.
pub fn admits(reward: &Reward, mode: EtlMode, filters: &Filters) -> (r: bool)
    ensures
        r == admitted(*reward, mode, *filters),
{
    match mode {
        EtlMode::Rewards | EtlMode::Full => true,
        EtlMode::Challenges => false,
        EtlMode::Filters => {
            if is_listed(&filters.accounts, &reward.account) {
                true
            } else {
                is_listed(&filters.gateways, &reward.gateway)
            }
        },
    }
}

/// A reward is kept in `Filters` mode exactly when its account is listed
/// among the accounts or its gateway among the gateways; a reward with
/// neither identity is never kept.
pub proof fn lemma_filtered_iff_listed(r: Reward, f: Filters)
    ensures
        admitted(r, EtlMode::Filters, f) <==> (listed(f.accounts@, r.account) || listed(
            f.gateways@,
            r.gateway,
        )),
        r.account is None && r.gateway is None ==> !admitted(r, EtlMode::Filters, f),
        r.account is Some && r.gateway is None ==> (admitted(r, EtlMode::Filters, f) <==> exists|
            i: int,
        | 0 <= i < f.accounts@.len() && #[trigger] f.accounts@[i]@ == r.account.unwrap()@),
{
}

impl Filters {
    /// Splits `(kind, value)` rows into the account and gateway lists,
    /// keeping row order; rows of any other kind are ignored.
    pub fn from_rows(rows: &Vec<(String, String)>) -> (f: Filters)
        ensures
            views(f.accounts@) == values_of_kind(rows@, account_kind()),
            views(f.gateways@) == values_of_kind(rows@, gateway_kind()),
    {
        let account = String::from_str("account");
        let gateway = String::from_str("gateway");
        proof {
            reveal_strlit("account");
            reveal_strlit("gateway");
            assert(account@ =~= account_kind());
            assert(gateway@ =~= gateway_kind());
        }
        let mut accounts: Vec<String> = Vec::new();
        let mut gateways: Vec<String> = Vec::new();
        let mut i: usize = 0;
        while i < rows.len()
            invariant
                0 <= i <= rows.len(),
                account@ == account_kind(),
                gateway@ == gateway_kind(),
                views(accounts@) == values_of_kind(rows@.subrange(0, i as int), account_kind()),
                views(gateways@) == values_of_kind(rows@.subrange(0, i as int), gateway_kind()),
            decreases rows.len() - i,
        {
            let ghost prefix = rows@.subrange(0, i as int);
            let ghost next = rows@.subrange(0, i as int + 1);
            assert(next.drop_last() =~= prefix);
            assert(next.last() == rows@[i as int]);
            let row = &rows[i];
            if row.0 == account {
                let ghost before = accounts@;
                accounts.push(row.1.clone());
                assert(views(accounts@) =~= views(before).push(row.1@));
            }
            if row.0 == gateway {
                let ghost before = gateways@;
                gateways.push(row.1.clone());
                assert(views(gateways@) =~= views(before).push(row.1@));
            }
            i = i + 1;
        }
        assert(rows@.subrange(0, rows@.len() as int) =~= rows@);
        Filters { accounts, gateways }
    }
}

} // verus!
