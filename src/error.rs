//! The failures that a command can end in.
use vstd::prelude::*;

verus! {

/// Why a command was refused. The first check that fails decides the error,
/// and a refused command changes nothing.
#[derive(Debug, Clone, Copy, PartialEq, Eq, Structural)]
pub enum ReviewError {
    /// The acting identity did not sign the command.
    MissingSignature,
    /// A supplied address differs from the one derived for it.
    InvalidAddress,
    /// The record cell is not owned by this program.
    IllegalOwner,
    /// The cell to be created already holds an initialized record.
    AlreadyInitialized,
    /// The record to be updated has not been initialized.
    UninitializedAccount,
    /// The encoded record would be larger than the limit.
    DataLimitExceeded,
    /// The command's tag names no known operation.
    UnsupportedOperation,
    /// The command's payload or a cell's bytes do not follow the layout.
    MalformedPayload,
    /// Fewer accounts were supplied than the command reads.
    NotEnoughAccountKeys,
    /// The reward-issuance service rejected the mint request.
    ExternalCallFailed,
}

} // verus!
