//! Host side of a validator signing-key service backed by an isolated
//! enclave.  The host frames requests as length-prefixed byte messages,
//! exchanges them with the enclave over a pair of one-shot channels, and
//! applies key-storage policy (never overwriting an existing key file) to
//! the enclave's replies.

pub mod commands;
pub mod error;
pub mod exchange;
pub mod protocol;
pub mod provider;
