use vstd::prelude::*;

verus! {

/// What can go wrong in the library's logic.
#[derive(Debug, PartialEq, Eq)]
pub enum Error {
    /// A value does not fit the store's signed 64-bit integers, or a stored
    /// value is negative.
    OutOfRange,
    /// A reward-epoch transaction came back as another variant.
    UnexpectedTransaction,
    /// A transaction the block needs was not handed over.
    MissingTransaction,
    /// The store holds no checkpoint yet.
    NoFollowerInfo,
    /// A configuration value is not one of the accepted ones.
    Config(String),
    /// Any other failure, with its message.
    Custom(String),
}

impl Error {
    /// An error that carries only a message.
    pub fn custom(msg: &str) -> (r: Error)
        ensures
            r matches Error::Custom(m) && m@ == msg@,
    {
        Error::Custom(msg.to_string())
    }
}

} // verus!
