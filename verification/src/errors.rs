//! Typed failures of the pipeline. Every error is surfaced to the caller;
//! none is swallowed.
use vstd::prelude::*;

verus! {

/// The six required configuration keys.
#[derive(Clone, Copy, Debug, PartialEq, Eq, Structural)]
pub enum ConfigKey {
    HttpUrl,
    WsUrl,
    PayerPath,
    AdminPath,
    RaydiumProgram,
    PnlOwner,
}

/// A failure of the configuration loader: a required key is missing, its
/// value is empty, or an address-shaped value does not parse.
#[derive(Clone, Copy, Debug, PartialEq, Eq, Structural)]
pub enum ConfigError {
    Missing(ConfigKey),
    Empty(ConfigKey),
    MalformedAddress(ConfigKey),
}

/// A typed failure of one pipeline stage.
#[derive(Clone, Debug, PartialEq, Eq)]
pub enum PipelineError {
    /// Missing or invalid configuration.
    Config(ConfigError),
    /// A key file was unreadable or did not hold a valid keypair.
    KeyLoad,
    /// A key file could not be written whole.
    KeyWrite,
    /// A required address handed to the instruction builder was the zero
    /// (default) address.
    InstructionBuild,
    /// The signer set does not cover every account flagged as a signer.
    MissingSigner,
    /// A keypair could not produce a signature over the message.
    Signing,
    /// Transport failed more times than the bounded retry budget allows.
    Network,
    /// The ledger refused the transaction; carries its reason.
    TransactionRejected(Vec<u8>),
    /// The anti-replay token expired; assembly must restart with a fresh one.
    ReplayTokenExpired,
}

} // verus!
