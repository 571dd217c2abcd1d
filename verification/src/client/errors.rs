//! Why the chain refused something, and why a duty of the client failed.
use vstd::prelude::*;
use crate::types::ShardChunkHeader;

verus! {

/// Why the chain did not take a block or a header, or could not answer.
#[derive(Debug, PartialEq, Eq)]
pub enum ChainError {
    /// The data is malformed or dishonest; whoever sent it is to blame.
    BadData(String),
    /// The chain itself failed.
    Failure(String),
    /// The parent of the block is not known, or not ready yet.
    Orphan,
    /// These chunks of the block have not arrived.
    ChunksMissing(Vec<ShardChunkHeader>),
    /// Anything else that keeps the chain from taking the data.
    Refused(String),
}

/// What an error of the chain is about, as far as the client tells such errors apart.
#[derive(Debug, PartialEq, Eq)]
pub enum ErrorKind {
    Orphan,
    ChunksMissing(Vec<ShardChunkHeader>),
    Other,
}

/// What an error of the chain means to the client, by what is known of it.
pub open spec fn classified(
    is_bad_data: bool,
    is_error: bool,
    kind: ErrorKind,
    message: String,
) -> ChainError {
    if is_bad_data {
        ChainError::BadData(message)
    } else if is_error {
        ChainError::Failure(message)
    } else {
        match kind {
            ErrorKind::Orphan => ChainError::Orphan,
            ErrorKind::ChunksMissing(chunks) => ChainError::ChunksMissing(chunks),
            ErrorKind::Other => ChainError::Refused(message),
        }
    }
}

/// What an error of the chain means to the client. That it speaks of bad data comes before all
/// else, that it is a failure of the chain comes next, and only then does it matter what the error
/// is about.
pub fn classify_error(
    is_bad_data: bool,
    is_error: bool,
    kind: ErrorKind,
    message: String,
) -> (r: ChainError)
    ensures
        r == classified(is_bad_data, is_error, kind, message),
{
    if is_bad_data {
        return ChainError::BadData(message);
    }
    if is_error {
        return ChainError::Failure(message);
    }
    match kind {
        ErrorKind::Orphan => ChainError::Orphan,
        ErrorKind::ChunksMissing(chunks) => ChainError::ChunksMissing(chunks),
        ErrorKind::Other => ChainError::Refused(message),
    }
}

/// Why the client could not produce a block or a chunk.
#[derive(Debug, PartialEq, Eq)]
pub enum ProducerFault {
    /// The client has no account to produce for.
    NoBlockProducer,
    /// What the shard's last chunk came to is not known, for the reason given.
    NoChunkExtra(String),
    /// The chunk could not be encoded.
    Serialization,
}

/// Why a duty of the client failed.
#[derive(Debug, PartialEq, Eq)]
pub enum Error {
    Chain(ChainError),
    ChunkProducer(ProducerFault),
    BlockProducer(ProducerFault),
    Other(String),
}

impl ProducerFault {
    /// The fault in words.
    pub fn message(&self) -> (r: String)
        ensures
            r@ == (match *self {
                ProducerFault::NoBlockProducer => "Called without block producer info."@,
                ProducerFault::NoChunkExtra(reason) => "No chunk extra available: "@ + reason@,
                ProducerFault::Serialization =>
                    "Can't create encoded chunk, serialization error."@,
            }),
    {
        match self {
            ProducerFault::NoBlockProducer => "Called without block producer info.".to_string(),
            ProducerFault::NoChunkExtra(reason) => {
                "No chunk extra available: ".to_string().concat(reason.as_str())
            },
            ProducerFault::Serialization => {
                "Can't create encoded chunk, serialization error.".to_string()
            },
        }
    }
}

/// Turns a failure of the runtime, given in words, into a failure of the client.
pub fn runtime_result<T>(result: Result<T, String>) -> (r: Result<T, Error>)
    ensures
        match result {
            Ok(value) => r == Ok::<T, Error>(value),
            Err(message) => r == Err::<T, Error>(Error::Other(message)),
        },
{
    match result {
        Ok(value) => Ok(value),
        Err(message) => Err(Error::Other(message)),
    }
}

/// An error blames the sender exactly if it speaks of bad data, and the chain exactly if it does
/// not but is a failure. Only otherwise does it matter whether a parent or chunks are missing, and
/// which chunks; of any other error the words are kept.
pub proof fn law_bad_data_counts_first(
    is_bad_data: bool,
    is_error: bool,
    kind: ErrorKind,
    message: String,
)
    ensures
        match classified(is_bad_data, is_error, kind, message) {
            ChainError::BadData(words) => is_bad_data && words == message,
            ChainError::Failure(words) => !is_bad_data && is_error && words == message,
            ChainError::Orphan => !is_bad_data && !is_error && kind is Orphan,
            ChainError::ChunksMissing(chunks) => !is_bad_data && !is_error && kind
                == ErrorKind::ChunksMissing(chunks),
            ChainError::Refused(words) => !is_bad_data && !is_error && kind is Other && words
                == message,
        },
{
}

} // verus!
