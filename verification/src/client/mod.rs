//! The client: it follows the chain, keeps in step with its peers, and produces blocks and chunks
//! when it is its turn.
pub mod accepted;
pub mod actor;
pub mod announce;
pub mod catchup;
pub mod chunk_production;
pub mod duties;
pub mod errors;
pub mod genesis;
pub mod handler;
pub mod headers;
pub mod production;
pub mod reorg;
pub mod status;
pub mod sync;
