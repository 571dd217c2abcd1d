//! Validation of chunks from a witness of the state they read, without the state itself.
pub mod chunk_validator;
pub mod endorsement_cache;
pub mod errors;
pub mod history;
pub mod pre_validation;
pub mod receipts;
pub mod shuffle;
pub mod source_receipts;
pub mod stages;
pub mod validation;
pub mod witness;
