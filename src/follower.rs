use vstd::prelude::*;
use crate::block_processor::BlockProcessor;
use crate::error::Error;
use crate::filter::Filters;
use crate::reward::fits_i64;
use crate::settings::EtlMode;

verus! {

/// The checkpoint: the last fully ingested height and the earliest height
/// the node was found to serve.
#[derive(Debug, Clone, Copy, PartialEq, Eq, Structural)]
pub struct Info {
    pub height: u64,
    pub first_block: u64,
}

/// The checkpoint row inserted at initialization, as `(height, first_block)`:
/// nothing is ingested yet, so `height` is one below the first block.
/// Fails with `OutOfRange` when `first_block` is 0 or does not fit a signed
/// 64-bit integer.
pub fn create_follower_info(first_block: u64) -> (r: Result<(i64, i64), Error>)
    ensures
        r is Ok <==> 1 <= first_block && fits_i64(first_block),
        r matches Ok(row) ==> row.0 == first_block - 1 && row.1 == first_block,
        r matches Err(e) ==> e == Error::OutOfRange,
{
    if first_block == 0 || first_block > i64::MAX as u64 {
        return Err(Error::OutOfRange);
    }
    Ok(((first_block - 1) as i64, first_block as i64))
}

/// Reads the checkpoint from the `(height, first_block)` rows of the store.
/// Fails with `NoFollowerInfo` when there is no row, and with `OutOfRange`
/// when the first row holds a negative value.
pub fn load_follower_info(rows: &Vec<(i64, i64)>) -> (r: Result<Info, Error>)
    ensures
        rows@.len() == 0 ==> r == Err::<Info, Error>(Error::NoFollowerInfo),
        rows@.len() > 0 ==> (r is Ok <==> rows@[0].0 >= 0 && rows@[0].1 >= 0),
        rows@.len() > 0 && rows@[0].0 >= 0 && rows@[0].1 >= 0 ==> r == Ok::<Info, Error>(
            Info { height: rows@[0].0 as u64, first_block: rows@[0].1 as u64 },
        ),
        rows@.len() > 0 && !(rows@[0].0 >= 0 && rows@[0].1 >= 0) ==> r == Err::<Info, Error>(
            Error::OutOfRange,
        ),
{
    if rows.len() == 0 {
        return Err(Error::NoFollowerInfo);
    }
    let (height, first_block) = rows[0];
    if height < 0 || first_block < 0 {
        return Err(Error::OutOfRange);
    }
    Ok(Info { height: height as u64, first_block: first_block as u64 })
}

/// The height that follows one cycle: advanced by one exactly when the
/// ingestion of the next height was committed.
pub open spec fn height_after_cycle(height: u64, target: u64, committed: bool) -> u64 {
    if committed && target == height + 1 {
        target
    } else {
        height
    }
}

/// Owns the progress cursor and decides each cycle's work.
pub struct Follower {
    pub mode: EtlMode,
    /// The last ingested height.
    pub height: u64,
    pub first_block: u64,
    pub filters: Filters,
}

impl Follower {
    /// A follower resuming from the checkpoint `info`.
    pub fn new(mode: EtlMode, info: &Info, filters: Filters) -> (r: Follower)
        ensures
            r.mode == mode,
            r.height == info.height,
            r.first_block == info.first_block,
            r.filters == filters,
    {
        Follower { mode, height: info.height, first_block: info.first_block, filters }
    }

    /// The checkpoint the follower stands at.
    pub fn info(&self) -> (r: Info)
        ensures
            r == (Info { height: self.height, first_block: self.first_block }),
    {
        Info { height: self.height, first_block: self.first_block }
    }

    /// One cycle's decision, given the chain height: the one height to
    /// ingest, or nothing when the chain is not ahead.
    pub fn run(&self, chain_height: u64) -> (r: Option<u64>)
        ensures
            chain_height > self.height ==> r == Some((self.height + 1) as u64),
            chain_height <= self.height ==> r is None,
    {
        if chain_height > self.height {
            Some(self.height + 1)
        } else {
            None
        }
    }

    /// The ingestor for the block at `target`.
    pub fn start_block_processing(&self, target: u64) -> (p: BlockProcessor<'_>)
        ensures
            p.mode == self.mode,
            p.height == target,
            *p.filters == self.filters,
    {
        BlockProcessor::new(self.mode, target, &self.filters)
    }

    /// Ends a cycle that attempted `target`: the cursor moves to `target`
    /// only when its ingestion was committed and it was the next height.
    pub fn finish_block_processing(&mut self, target: u64, committed: bool)
        ensures
            final(self).height == height_after_cycle(old(self).height, target, committed),
            final(self).first_block == old(self).first_block,
            final(self).mode == old(self).mode,
            final(self).filters == old(self).filters,
    {
        if committed && target >= 1 && target - 1 == self.height {
            self.height = target;
        }
    }
}

/// The cursor never moves back, moves forward by one block at a time and
/// only after a committed ingestion, and the first block never changes.
pub proof fn lemma_checkpoint_monotone(height: u64, target: u64, committed: bool)
    ensures
        height_after_cycle(height, target, committed) >= height,
        height_after_cycle(height, target, committed) <= height + 1,
        height_after_cycle(height, target, committed) != height ==> committed,
{
}

} // verus!
