//! Two-way mapping between native 32-byte ledger accounts and 20-byte
//! EVM-style addresses, with a signature-based claim protocol, two
//! deterministic address-derivation schemes, and a cleanup hook run when an
//! account is deleted from the ledger.

pub mod claim;
pub mod hashes;
pub mod laws;
pub mod message;
pub mod resolver;
pub mod secp;
pub mod store;
pub mod types;
