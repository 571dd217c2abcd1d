//! The decisions of a blockchain client: following the chain, keeping in step with the peers,
//! producing blocks and chunks, and validating the chunks of others. What the rest of the node has
//! answered comes in as plain values, and what to ask or do next goes out as plain values.
pub mod ancestry;
pub mod client;
pub mod crypto;
pub mod hash_index;
pub mod stateless_validation;
pub mod text;
pub mod types;
