//! Block pruning for a columnar table engine: a scan predicate is inspected
//! once, and a pruner decides per block, from the block's bloom filter index,
//! whether the block can be skipped. Pruning fails open: on any doubt or error
//! the block is kept.
pub mod expression;
pub mod schema;
pub mod bloom_index;
pub mod pruner;
pub mod file_format;
