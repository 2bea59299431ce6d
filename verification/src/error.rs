//! The ways in which the codec and the overlay fail.

use crate::entry_points::EntryPointType;
use crate::felt::Felt;
use vstd::prelude::*;

verus! {

/// A failure of the class codec. None is ever replaced by a default.
#[derive(Debug, Clone, Copy, PartialEq, Eq, Structural)]
pub enum CodecError {
    /// The payload is not what the format it was routed to requires.
    MalformedClass,
    /// A legacy class came with a Sierra ABI, or a compiled class with a
    /// Cairo ABI.
    AbiMismatch,
    /// No ABI where one is needed.
    MissingAbi,
    /// A bucket of entry points that must be there is absent.
    UnsupportedEntryPointKind(EntryPointType),
    /// The compressor reported a failure.
    Compression,
    /// The bytes are not a compressed stream that can be restored.
    Decompression,
}

/// What a failed read of the ledger was about.
#[derive(Debug, Clone, Copy, PartialEq, Eq, Structural)]
pub enum ReadContext {
    /// The hash of the block with this number.
    BlockHash(u64),
    /// The value stored at a key of a contract.
    Storage { contract: Felt, key: Felt },
    /// The nonce of a contract.
    Nonce(Felt),
    /// The class hash of a contract.
    ClassHash(Felt),
    /// The compiled class hash that belongs to a class hash.
    CompiledClassHash(Felt),
    /// The record stored under a class hash.
    Class(Felt),
    /// The stored class could not be turned into a compiled class.
    ClassV1,
    /// The stored class could not be turned into a legacy class.
    ClassV0,
}

/// A failure of the state overlay. Each one ends the execution that met it.
#[derive(Debug, Clone, Copy, PartialEq, Eq, Structural)]
pub enum StateError {
    /// The hash of a historical block was asked for and is not known.
    OldBlockHashNotProvided,
    /// The ledger could not be read, or what it holds could not be used.
    StateReadError(ReadContext),
    /// No class has been declared under this hash.
    UndeclaredClassHash(Felt),
    /// A nonce cannot be incremented any further.
    NonceOverflow(Felt),
}

} // verus!
