use vstd::prelude::*;

verus! {

/// What the program is asked to do.
#[derive(Debug, Clone, Copy, PartialEq, Eq, Structural)]
pub enum Cmd {
    /// Follow the chain and ingest blocks.
    Start,
    /// Bring the store's schema up to date.
    Migrate,
}

/// The command line.
#[derive(Debug, Clone, Copy, PartialEq, Eq, Structural)]
pub struct Cli {
    pub cmd: Cmd,
}

} // verus!
