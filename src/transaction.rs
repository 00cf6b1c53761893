use vstd::prelude::*;
use crate::error::Error;
use crate::reward::fits_i64;

verus! {

/// A row of the `transactions` table, without the transaction body, which
/// the caller stores as it was fetched.
#[derive(Debug, Clone, PartialEq, Eq)]
pub struct TransactionRow {
    pub block: i64,
    pub hash: String,
    pub type_tag: String,
}

pub struct TransactionRowView {
    pub block: int,
    pub hash: Seq<char>,
    pub type_tag: Seq<char>,
}

impl View for TransactionRow {
    type V = TransactionRowView;

    open spec fn view(&self) -> TransactionRowView {
        TransactionRowView { block: self.block as int, hash: self.hash@, type_tag: self.type_tag@ }
    }
}

/// Builds the `transactions` row for one transaction of block `block`.
/// Fails with `OutOfRange` when the block does not fit a signed 64-bit integer.
pub fn transaction_row(block: u64, hash: &String, type_tag: &String) -> (r: Result<
    TransactionRow,
    Error,
>)
    ensures
        r is Ok <==> fits_i64(block),
        r matches Ok(row) ==> row@ == (TransactionRowView {
            block: block as int,
            hash: hash@,
            type_tag: type_tag@,
        }),
        r matches Err(e) ==> e == Error::OutOfRange,
{
    if block > i64::MAX as u64 {
        return Err(Error::OutOfRange);
    }
    Ok(TransactionRow { block: block as i64, hash: hash.clone(), type_tag: type_tag.clone() })
}

} // verus!
