//! Hierarchical deterministic key derivation in the style of BIP-32.
pub mod chain_path;
pub mod crypto;
pub mod error;
pub mod extended_key;
pub mod key_chain;
pub mod key_index;
pub mod traits;

pub use chain_path::{ChainPath, ChainPathError, SubPath};
pub use extended_key::{ExtendedPrivKey, ExtendedPubKey};
pub use key_index::KeyIndex;
