//! Load management for GraphQL queries: moving statistics over a time
//! window, the effort spent per query shape, the overload state machine and
//! the decision whether to run a query; plus the values that the indexing
//! status API reports.

pub mod clock;
pub mod stats;
pub mod effort;
pub mod load;
pub mod value;
pub mod status;
