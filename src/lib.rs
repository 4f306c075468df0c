//! A file store rooted at a parent directory: path resolution, the plan of a
//! write, the outcome of reads and writes, and the filtering of glob listings,
//! each with its contract. The I/O itself is performed by the caller.

pub mod errors;
pub mod listing;
pub mod store;
