use vstd::prelude::*;

pub mod error;
pub mod event;
pub mod record;
pub mod files;
pub mod output;
pub mod channel;
pub mod pipeline;

verus! {

/// The default capacity of the bounded queue between reader and sinks.
pub const DEFAULT_CAPACITY: usize = 5;

} // verus!
