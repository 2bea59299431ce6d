use state_overlay::abi::ContractAbi;
use state_overlay::contract_class::ContractClass;
use state_overlay::contract_class::ContractClassCore;
use state_overlay::contract_class::ContractClassV0;
use state_overlay::contract_class::StorageContractClassData;
use state_overlay::entry_points::EntryPoint;
use state_overlay::entry_points::EntryPointTable;
use state_overlay::entry_points::LegacyContractEntryPoint;
use state_overlay::felt::Felt;
use state_overlay::rpc::get_block_n;
use state_overlay::rpc::get_class_at;
use state_overlay::rpc::get_class_hash_at;
use state_overlay::rpc::get_storage_at;
use state_overlay::rpc::StarknetRpcApiError;
use state_overlay::state_adapter::BackendError;
use state_overlay::state_adapter::ClassQuery;

fn f(n: u64) -> Felt {
    Felt::from_u64(n)
}

fn stored(abi: ContractAbi) -> StorageContractClassData {
    StorageContractClassData {
        contract_class: ContractClass::V0(ContractClassV0 {
            program: vec![9],
            entry_points_by_type: EntryPointTable {
                constructor: None,
                external: Some(vec![EntryPoint { selector: f(1), offset: 10 }]),
                l1_handler: None,
            },
        }),
        abi,
        sierra_program_length: 0,
        abi_length: 2,
        block_number: 3,
    }
}

#[test]
fn a_contract_without_a_class_hash_is_not_found() {
    assert_eq!(get_class_hash_at(Ok(None)), Err(StarknetRpcApiError::ContractNotFound));
    assert_eq!(get_class_hash_at(Err(BackendError)), Err(StarknetRpcApiError::InternalServerError));
    assert_eq!(get_class_hash_at(Ok(Some(f(5)))), Ok(ClassQuery { class_hash: f(5) }));
}

#[test]
fn a_stored_class_is_shown_in_its_wire_form() {
    match get_class_at(Ok(Some(stored(ContractAbi::Cairo(Some("[]".to_string())))))).unwrap() {
        ContractClassCore::Legacy(shown) => {
            assert_eq!(
                shown.entry_points_by_type.external,
                vec![LegacyContractEntryPoint { selector: f(1), offset: 10 }]
            );
            assert_eq!(shown.program, vec![9]);
            assert_eq!(shown.abi, Some("[]".to_string()));
        }
        ContractClassCore::Sierra(_) => panic!("a legacy class must stay legacy"),
    }
}

#[test]
fn a_class_that_cannot_be_shown_is_a_server_error() {
    assert_eq!(get_class_at(Ok(None)), Err(StarknetRpcApiError::InternalServerError));
    assert_eq!(get_class_at(Err(BackendError)), Err(StarknetRpcApiError::InternalServerError));
    assert_eq!(
        get_class_at(Ok(Some(stored(ContractAbi::Sierra("[]".to_string()))))),
        Err(StarknetRpcApiError::InternalServerError)
    );
    assert_eq!(
        get_class_at(Ok(Some(stored(ContractAbi::Cairo(None))))),
        Err(StarknetRpcApiError::InternalServerError)
    );
}

#[test]
fn storage_that_is_not_there_is_reported_as_a_missing_contract() {
    assert_eq!(get_storage_at(Some(f(3))), Ok(f(3)));
    assert_eq!(get_storage_at(Some(Felt::zero())), Ok(Felt::zero()));
    assert_eq!(get_storage_at(None), Err(StarknetRpcApiError::ContractNotFound));
}

#[test]
fn a_block_that_is_not_found_does_not_exist() {
    assert_eq!(get_block_n(Ok(Some(12))), Ok(12));
    assert_eq!(get_block_n(Ok(None)), Err(StarknetRpcApiError::BlockNotFound));
    assert_eq!(get_block_n(Err(BackendError)), Err(StarknetRpcApiError::BlockNotFound));
}
