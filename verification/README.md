# near_client

The decisions of a blockchain client, verified with Verus: how it follows the chain, keeps in step
with its peers, produces blocks and chunks when it is its turn, and validates the chunks of others
from their state witnesses.

The library in `src/` does no input or output. It is handed what the chain, the runtime, the chunk
store and the network have answered, and hands back what to ask, with all that the question names,
or what to do next; each function's contract says exactly what that is. `app/` is an actor around it
that asks and does.

- `src/client/` is the client: `handler` (messages from the network), `accepted` and `reorg` (blocks
  that the chain has taken), `production` and `chunk_production` (its own blocks and chunks),
  `duties` (approvals, turns, announcements), `sync`, `catchup` and `headers` (getting in step),
  `announce`, `status`, `genesis`.
- `src/stateless_validation/` is chunk validation: `history` and `source_receipts` (what the chain
  says a chunk had to apply), `pre_validation` and `validation` (holding a witness against it),
  `stages` (the order of it all), `endorsement_cache` and `chunk_validator` (endorsing a chunk).
- `src/crypto.rs`, and a few functions beside it, call the network's own crates for hashes, Merkle
  trees, signatures, encodings, the bounded cache and the calendar. Their contracts are taken on
  trust; the doc comment of each says what is claimed of the crate.
- `src/ancestry.rs`, `src/hash_index.rs` and `src/text.rs` are shared by both: the way back from a
  block, maps keyed by a hash, and numbers as text.
- Public proof functions named `law_..` state what holds across functions.
