pub mod backfill;
pub mod block_processor;
pub mod chain;
pub mod cli;
pub mod error;
pub mod filter;
pub mod follower;
pub mod reward;
pub mod settings;
pub mod transaction;

pub use error::Error;
pub use settings::{EtlMode, Settings};
