//! What the query layer answers once the ledger has been read.
//!
//! Reading the ledger is left to the caller. The functions here take what the
//! ledger said and decide what the client is told.

use crate::contract_class::wire_class;
use crate::contract_class::ContractClassCore;
use crate::contract_class::ContractClassCoreView;
use crate::contract_class::ContractClassWrapper;
use crate::contract_class::StorageContractClassData;
use crate::felt::Felt;
use crate::state_adapter::BackendAnswer;
use crate::state_adapter::ClassQuery;
use vstd::prelude::*;

verus! {

/// The errors that a client can be told.
#[derive(Debug, Clone, Copy, PartialEq, Eq, Structural)]
pub enum StarknetRpcApiError {
    BlockNotFound,
    ContractNotFound,
    InternalServerError,
}

/// The number of the block that a query speaks of, given what the ledger
/// found for the block's name. A block that cannot be found, for whatever
/// reason, does not exist for the client.
pub open spec fn block_found(answer: BackendAnswer<u64>) -> Result<u64, StarknetRpcApiError> {
    match answer {
        Ok(Some(block_number)) => Ok(block_number),
        _ => Err(StarknetRpcApiError::BlockNotFound),
    }
}

/// What follows from the ledger's answer about the class hash of a
/// contract: the query for the class, or the error for the client.
pub open spec fn class_hash_found(answer: BackendAnswer<Felt>) -> Result<
    ClassQuery,
    StarknetRpcApiError,
> {
    match answer {
        Ok(Some(class_hash)) => Ok(ClassQuery { class_hash }),
        Ok(None) => Err(StarknetRpcApiError::ContractNotFound),
        Err(_) => Err(StarknetRpcApiError::InternalServerError),
    }
}

/// The class that a client is shown for the ledger's answer about a class
/// record. A class must be stored for every class hash in use, so a missing
/// record is a fault of the node, and so is a record that cannot be shown.
pub open spec fn class_shown(answer: BackendAnswer<StorageContractClassData>) -> Result<
    ContractClassCoreView,
    StarknetRpcApiError,
> {
    match answer {
        Ok(Some(record)) => match wire_class(record.contract_class@, record.abi@) {
            Ok(class) => Ok(class),
            Err(_) => Err(StarknetRpcApiError::InternalServerError),
        },
        _ => Err(StarknetRpcApiError::InternalServerError),
    }
}

/// The value that a client is shown for what was found at a storage key.
pub open spec fn storage_shown(found: Option<Felt>) -> Result<Felt, StarknetRpcApiError> {
    match found {
        Some(value) => Ok(value),
        None => Err(StarknetRpcApiError::ContractNotFound),
    }
}

/// Takes what the ledger found for the name of a block and yields the
/// block's number.
pub fn get_block_n(answer: BackendAnswer<u64>) -> (found: Result<u64, StarknetRpcApiError>)
    ensures
        found == block_found(answer),
{
    match answer {
        Ok(Some(block_number)) => Ok(block_number),
        _ => Err(StarknetRpcApiError::BlockNotFound),
    }
}

/// Takes the ledger's answer about the class hash of a contract and says
/// which class record to ask for next.
pub fn get_class_hash_at(answer: BackendAnswer<Felt>) -> (next: Result<
    ClassQuery,
    StarknetRpcApiError,
>)
    ensures
        next == class_hash_found(answer),
{
    match answer {
        Ok(Some(class_hash)) => Ok(ClassQuery { class_hash }),
        Ok(None) => Err(StarknetRpcApiError::ContractNotFound),
        Err(_) => Err(StarknetRpcApiError::InternalServerError),
    }
}

/// Takes the ledger's answer about a class record and yields the class as
/// the wire shows it.
pub fn get_class_at(answer: BackendAnswer<StorageContractClassData>) -> (shown: Result<
    ContractClassCore,
    StarknetRpcApiError,
>)
    ensures
        match shown {
            Ok(class) => class_shown(answer) == Ok::<_, StarknetRpcApiError>(class@),
            Err(e) => class_shown(answer) == Err::<ContractClassCoreView, _>(e),
        },
{
    match answer {
        Ok(Some(record)) => {
            let wrapper = ContractClassWrapper {
                contract: record.contract_class,
                abi: record.abi,
                sierra_program_length: record.sierra_program_length,
                abi_length: record.abi_length,
            };
            match wrapper.try_into() {
                Ok(class) => Ok(class),
                Err(_) => Err(StarknetRpcApiError::InternalServerError),
            }
        },
        _ => Err(StarknetRpcApiError::InternalServerError),
    }
}

/// Takes what was found at a storage key and yields what the client is
/// shown.
pub fn get_storage_at(found: Option<Felt>) -> (shown: Result<Felt, StarknetRpcApiError>)
    ensures
        shown == storage_shown(found),
{
    match found {
        Some(value) => Ok(value),
        None => Err(StarknetRpcApiError::ContractNotFound),
    }
}

} // verus!
