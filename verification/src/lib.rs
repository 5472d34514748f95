//! Database bootstrap for a local key store: planning of schema migrations,
//! encoding of key records into storable rows, and small helpers around them.
//!
//! Nothing here performs I/O. Each operation that touches the database is
//! returned as a value for the caller to carry out, and the caller reports
//! back what happened.

pub mod codec;
pub mod config;
pub mod engine;
pub mod ident;
pub mod key;
pub mod merge;
pub mod migration;
pub mod run;
pub mod strategy;

pub use codec::{
    Algorithm, EncodeError, HashingAlgorithm, Params, StoredKeyType, StoredKeyVersion,
};
pub use config::{override_enabled, MigrationConfig};
pub use engine::{EngineAction, EngineReply, MigrationError, MigrationOutcome, Stage};
pub use ident::{uuid_from_text, uuid_to_bytes};
pub use key::{
    conclude_write, read_storedkey_from_row, write_storedkey_to_db, KeyRow, KeyWriteError,
    StoredKey, WriteAction, SALT_LEN,
};
pub use merge::chain_optional_iter;
pub use migration::{load_and_migrate, Migration, Phase, Step};
pub use strategy::{Development, MigrationStrategy, Production};
