use vstd::prelude::*;

verus! {

/// What the caller reports after probing the block at `Backfill::height`.
pub enum BackfillEvent {
    /// The block was fetched; the `start_epoch` of each of its reward-epoch
    /// transactions, in block order.
    Found(Vec<u64>),
    /// The block could not be fetched.
    Missing,
    /// The block was fetched but one of its reward-epoch transactions was not.
    EpochUnreadable,
    /// The shutdown signal won.
    Cancelled,
}

pub enum BackfillEventView {
    Found(Seq<u64>),
    Missing,
    EpochUnreadable,
    Cancelled,
}

impl View for BackfillEvent {
    type V = BackfillEventView;

    open spec fn view(&self) -> BackfillEventView {
        match self {
            BackfillEvent::Found(v) => BackfillEventView::Found(v@),
            BackfillEvent::Missing => BackfillEventView::Missing,
            BackfillEvent::EpochUnreadable => BackfillEventView::EpochUnreadable,
            BackfillEvent::Cancelled => BackfillEventView::Cancelled,
        }
    }
}

/// What discovery asks for next.
#[derive(Debug, Clone, Copy, PartialEq, Eq, Structural)]
pub enum Probe {
    /// Fetch the block at this height and report it.
    Fetch(u64),
    /// Discovery is over: this is the earliest usable height.
    Done(u64),
    /// Even the retry at this height failed: no usable floor can be
    /// established. This is fatal.
    Stuck(u64),
}

/// The state of the backward scan for the earliest block the node serves.
#[derive(Debug, Clone, Copy, PartialEq, Eq, Structural)]
pub struct Backfill {
    /// The height probed next.
    pub height: u64,
    /// The lowest height whose block was fetched.
    pub last_safe: u64,
    /// Whether a fetch has already failed once.
    pub edge: bool,
    /// Whether the current probe is the one retry after the first failure.
    pub retrying: bool,
}

/// One step of discovery, from a state and the report on its probe.
pub open spec fn backfill_step(s: Backfill, e: BackfillEventView) -> (Backfill, Probe) {
    match e {
        BackfillEventView::Cancelled | BackfillEventView::EpochUnreadable => (
            s,
            Probe::Done(s.last_safe),
        ),
        BackfillEventView::Missing => if s.retrying {
            (s, Probe::Stuck(s.height))
        } else if s.edge {
            (s, Probe::Done(s.last_safe))
        } else if s.last_safe == 0 {
            (Backfill { edge: true, ..s }, Probe::Stuck(0))
        } else {
            let h = (s.last_safe - 1) as u64;
            (
                Backfill { height: h, last_safe: s.last_safe, edge: true, retrying: true },
                Probe::Fetch(h),
            )
        },
        BackfillEventView::Found(starts) => if starts.len() > 0 {
            let h = starts.last();
            (
                Backfill { height: h, last_safe: s.height, edge: s.edge, retrying: false },
                Probe::Fetch(h),
            )
        } else if s.height == 0 {
            (Backfill { last_safe: 0, retrying: false, ..s }, Probe::Done(0))
        } else {
            let h = (s.height - 1) as u64;
            (
                Backfill { height: h, last_safe: s.height, edge: s.edge, retrying: false },
                Probe::Fetch(h),
            )
        },
    }
}

impl Backfill {
    /// Starts discovery at the chain head; the first probe is the head.
    pub fn new(chain_height: u64) -> (r: Backfill)
        ensures
            r == (Backfill { height: chain_height, last_safe: chain_height, edge: false, retrying: false }),
    {
        Backfill { height: chain_height, last_safe: chain_height, edge: false, retrying: false }
    }

    /// The first probe.
    pub fn first_probe(&self) -> (p: Probe)
        ensures
            p == Probe::Fetch(self.height),
    {
        Probe::Fetch(self.height)
    }

    /// Takes the report on the block at `height` and says what to do next.
    /// A fetched block with a reward-epoch transaction sends the scan to that
    /// epoch's start; one without sends it one block down. The first failed
    /// fetch is retried once just below the lowest fetched block; a failure
    /// after that ends the scan at that block, and a failed retry is fatal.
    pub fn step(&mut self, event: &BackfillEvent) -> (p: Probe)
        ensures
            (*final(self), p) == backfill_step(*old(self), event@),
    {
        match event {
            BackfillEvent::Cancelled | BackfillEvent::EpochUnreadable => Probe::Done(self.last_safe),
            BackfillEvent::Missing => {
                if self.retrying {
                    Probe::Stuck(self.height)
                } else if self.edge {
                    Probe::Done(self.last_safe)
                } else if self.last_safe == 0 {
                    self.edge = true;
                    Probe::Stuck(0)
                } else {
                    let h = self.last_safe - 1;
                    self.height = h;
                    self.edge = true;
                    self.retrying = true;
                    Probe::Fetch(h)
                }
            },
            BackfillEvent::Found(starts) => {
                if starts.len() > 0 {
                    let h = starts[starts.len() - 1];
                    self.last_safe = self.height;
                    self.height = h;
                    self.retrying = false;
                    Probe::Fetch(h)
                } else if self.height == 0 {
                    self.last_safe = 0;
                    self.retrying = false;
                    Probe::Done(0)
                } else {
                    let h = self.height - 1;
                    self.last_safe = self.height;
                    self.height = h;
                    self.retrying = false;
                    Probe::Fetch(h)
                }
            },
        }
    }
}

/// A block holding a reward-epoch transaction sends the next probe to the
/// start of that epoch, not one block down.
pub proof fn lemma_epoch_skip(s: Backfill, starts: Seq<u64>)
    requires
        starts.len() > 0,
    ensures
        backfill_step(s, BackfillEventView::Found(starts)).1 == Probe::Fetch(starts.last()),
        backfill_step(s, BackfillEventView::Found(starts)).0.height == starts.last(),
        backfill_step(s, BackfillEventView::Found(starts)).0.last_safe == s.height,
{
}

/// The report of a node that serves every block at `floor` and above and
/// none below, whose block at `head` holds one reward-epoch transaction
/// starting at `start` when there is one, and whose other blocks hold none.
pub open spec fn node_report(floor: u64, head: u64, start: Option<u64>, h: u64) -> BackfillEventView {
    if h < floor {
        BackfillEventView::Missing
    } else if h == head && start is Some {
        BackfillEventView::Found(seq![start->Some_0])
    } else {
        BackfillEventView::Found(Seq::empty())
    }
}

/// Discovery run for at most `fuel` further probes against that node.
pub open spec fn run_against(s: Backfill, floor: u64, head: u64, start: Option<u64>, fuel: nat) -> Probe
    decreases fuel,
{
    let (next, p) = backfill_step(s, node_report(floor, head, start, s.height));
    match p {
        Probe::Fetch(_) => if fuel == 0 {
            p
        } else {
            run_against(next, floor, head, start, (fuel - 1) as nat)
        },
        _ => p,
    }
}

/// Against a node that serves every block down to height 0, discovery from
/// any height below the epoch block walks down and ends at 0.
pub proof fn lemma_backfill_full_history(s: Backfill, head: u64, start: Option<u64>)
    requires
        !s.retrying,
        s.height < head || start is None,
    ensures
        run_against(s, 0, head, start, s.height as nat) == Probe::Done(0),
    decreases s.height,
{
    if s.height > 0 {
        let next = backfill_step(s, node_report(0, head, start, s.height)).0;
        lemma_backfill_full_history(next, head, start);
    }
}

/// Against a node that serves every block at `floor` and above and none
/// below, discovery that has already met one gap and walks down from a
/// fetched block ends exactly at `floor`.
pub proof fn lemma_backfill_stops_at_floor(s: Backfill, floor: u64, head: u64, start: Option<u64>)
    requires
        floor >= 1,
        s.edge,
        !s.retrying,
        s.height + 1 == s.last_safe,
        s.last_safe >= floor,
        s.last_safe <= head || start is None,
    ensures
        run_against(s, floor, head, start, (s.last_safe - floor) as nat) == Probe::Done(floor),
    decreases s.last_safe - floor,
{
    if s.height >= floor {
        let next = backfill_step(s, node_report(floor, head, start, s.height)).0;
        lemma_backfill_stops_at_floor(next, floor, head, start);
    }
}

/// From the chain head, against a node that serves `floor` and above and
/// whose head block opens an epoch that starts below `floor`: the jump
/// meets the gap, the one retry lands just below the head, and discovery
/// ends exactly at `floor`.
pub proof fn lemma_backfill_finds_floor_after_jump(head: u64, floor: u64, start: u64)
    requires
        1 <= floor < head,
        start < floor,
    ensures
        run_against(
            Backfill { height: head, last_safe: head, edge: false, retrying: false },
            floor,
            head,
            Some(start),
            (head - floor + 2) as nat,
        ) == Probe::Done(floor),
{
    let s0 = Backfill { height: head, last_safe: head, edge: false, retrying: false };
    let r = Some(start);
    let s1 = backfill_step(s0, node_report(floor, head, r, s0.height)).0;
    assert(s1 == Backfill { height: start, last_safe: head, edge: false, retrying: false });
    let s2 = backfill_step(s1, node_report(floor, head, r, s1.height)).0;
    assert(s2 == Backfill { height: (head - 1) as u64, last_safe: head, edge: true, retrying: true });
    let s3 = backfill_step(s2, node_report(floor, head, r, s2.height)).0;
    assert(s3 == Backfill {
        height: (head - 2) as u64,
        last_safe: (head - 1) as u64,
        edge: true,
        retrying: false,
    });
    lemma_backfill_stops_at_floor(s3, floor, head, r);
    let f = (head - floor + 2) as nat;
    assert(run_against(s2, floor, head, r, (f - 2) as nat) == run_against(s3, floor, head, r, (f - 3) as nat));
    assert(run_against(s1, floor, head, r, (f - 1) as nat) == run_against(s2, floor, head, r, (f - 2) as nat));
    assert(run_against(s0, floor, head, r, f) == run_against(s1, floor, head, r, (f - 1) as nat));
}

/// A fresh discovery against a node with a gap below `floor` and no
/// reward-epoch transaction does not recover: the one retry lands on the
/// same missing height, which is fatal.
pub proof fn lemma_backfill_fresh_walk_is_stuck(s: Backfill, floor: u64)
    requires
        floor >= 1,
        !s.edge,
        !s.retrying,
        s.height >= floor,
        s.height == s.last_safe || s.height + 1 == s.last_safe,
    ensures
        run_against(s, floor, 0, None, (s.height - floor + 2) as nat) == Probe::Stuck(
            (floor - 1) as u64,
        ),
    decreases s.height - floor,
{
    let next = backfill_step(s, node_report(floor, 0, None, s.height)).0;
    if s.height > floor {
        lemma_backfill_fresh_walk_is_stuck(next, floor);
    } else {
        assert(next.height == floor - 1 && next.last_safe == floor);
        let next2 = backfill_step(next, node_report(floor, 0, None, next.height)).0;
        assert(next2.retrying);
        assert(run_against(next2, floor, 0, None, 0) == Probe::Stuck((floor - 1) as u64));
        assert(run_against(next, floor, 0, None, 1) == run_against(next2, floor, 0, None, 0));
        assert(run_against(s, floor, 0, None, 2) == run_against(next, floor, 0, None, 1));
    }
}

} // verus!
