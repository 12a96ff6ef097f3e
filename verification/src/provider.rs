//! Signature providers (backends) and their configuration entries.

use vstd::prelude::*;

verus! {

/// Enumeration of signing key providers.
#[derive(Copy, Clone, Debug, PartialEq, Eq, Structural, Hash)]
pub enum SigningProvider {
    /// YubiHSM provider.
    Yubihsm,
    /// Ledger + Tendermint application.
    LedgerTm,
    /// Software signer (not intended for production use).
    SoftSign,
    /// SGX + Tendermint application.
    Sgx,
}

impl SigningProvider {
    /// The provider's display name, as the configuration files spell it.
    pub fn name(&self) -> (s: &'static str)
        ensures
            self is Yubihsm ==> s@ == "yubihsm"@,
            self is LedgerTm ==> s@ == "ledgertm"@,
            self is SoftSign ==> s@ == "softsign"@,
            self is Sgx ==> s@ == "sgx"@,
    {
        match self {
            SigningProvider::Yubihsm => "yubihsm",
            SigningProvider::LedgerTm => "ledgertm",
            SigningProvider::Sgx => "sgx",
            SigningProvider::SoftSign => "softsign",
        }
    }
}

/// One SGX backend entry: where its sealed key lives and how to reach the
/// enclave.
pub struct SgxTendermintConfig {
    /// File path of the persisted sealed signing key.
    pub key_path: String,
    /// Enclave image path or network address.
    pub sgx_path: String,
}

/// Provider configuration: the signing backends a daemon instance drives.
pub struct ProviderConfig {
    /// SGX-backed signers.
    pub sgx: Vec<SgxTendermintConfig>,
}

impl Default for ProviderConfig {
    /// An empty configuration: no backends.
    fn default() -> (c: Self)
        ensures
            c.sgx@.len() == 0,
    {
        ProviderConfig { sgx: Vec::new() }
    }
}

} // verus!
