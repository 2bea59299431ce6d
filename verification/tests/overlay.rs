use state_overlay::contract_class::ContractClass;
use state_overlay::contract_class::ContractClassV0;
use state_overlay::contract_class::ContractClassV1;
use state_overlay::contract_class::ClassFormat;
use state_overlay::entry_points::EntryPointTable;
use state_overlay::error::ReadContext;
use state_overlay::error::StateError;
use state_overlay::felt::Felt;
use state_overlay::ordered_map::OrderedMap;
use state_overlay::state_adapter::materialize;
use state_overlay::state_adapter::BackendError;
use state_overlay::state_adapter::BlockifierStateAdapter;
use state_overlay::state_adapter::ClassHashQuery;
use state_overlay::state_adapter::ClassQuery;
use state_overlay::state_adapter::CompiledClassHashQuery;
use state_overlay::state_adapter::NonceQuery;
use state_overlay::state_adapter::Read;
use state_overlay::state_adapter::StorageQuery;
use std::collections::HashSet;

fn f(n: u64) -> Felt {
    Felt::from_u64(n)
}

fn legacy() -> ContractClass {
    ContractClass::V0(ContractClassV0 {
        program: vec![1, 2, 3],
        entry_points_by_type: EntryPointTable { constructor: None, external: Some(vec![]), l1_handler: None },
    })
}

fn compiled() -> ContractClass {
    ContractClass::V1(ContractClassV1 {
        program: vec![],
        entry_points_by_type: EntryPointTable { constructor: None, external: Some(vec![]), l1_handler: None },
    })
}

#[test]
fn an_ordered_map_keeps_the_order_of_first_insertion() {
    let mut map: OrderedMap<u32> = OrderedMap::new();
    assert_eq!(map.len(), 0);
    assert_eq!(map.insert(f(3), 30), None);
    assert_eq!(map.insert(f(1), 10), None);
    assert_eq!(map.insert(f(2), 20), None);
    assert_eq!(map.insert(f(1), 11), Some(10));
    assert_eq!(map.len(), 3);
    assert_eq!(map.entry_at(0), (f(3), &30));
    assert_eq!(map.entry_at(1), (f(1), &11));
    assert_eq!(map.entry_at(2), (f(2), &20));
    assert_eq!(map.get(&f(1)), Some(&11));
    assert_eq!(map.get(&f(4)), None);
}

#[test]
fn an_ordered_map_tells_keys_apart_by_every_word() {
    let mut map: OrderedMap<u8> = OrderedMap::new();
    map.insert(Felt { w3: 0, w2: 0, w1: 0, w0: 1 }, 1);
    map.insert(Felt { w3: 0, w2: 0, w1: 1, w0: 0 }, 2);
    map.insert(Felt { w3: 0, w2: 1, w1: 0, w0: 0 }, 3);
    map.insert(Felt { w3: 1, w2: 0, w1: 0, w0: 0 }, 4);
    assert_eq!(map.len(), 4);
    assert_eq!(map.get(&Felt { w3: 0, w2: 1, w1: 0, w0: 0 }), Some(&3));
    assert_eq!(map.get(&Felt { w3: 1, w2: 1, w1: 0, w0: 0 }), None);
}

#[test]
fn an_ordered_map_of_elements_lists_its_entries() {
    let mut map: OrderedMap<Felt> = OrderedMap::new();
    map.insert(f(2), f(20));
    map.insert(f(1), f(10));
    map.insert(f(2), f(21));
    assert_eq!(map.to_vec(), vec![(f(2), f(21)), (f(1), f(10))]);
}

#[test]
fn a_new_adapter_has_written_nothing() {
    let adapter = BlockifierStateAdapter::<ContractClass>::new(42);
    assert_eq!(adapter.block_number(), 42);
    let diff = adapter.to_state_diff();
    assert!(diff.address_to_class_hash.is_empty());
    assert!(diff.address_to_nonce.is_empty());
    assert!(diff.storage_updates.is_empty());
    assert!(diff.class_hash_to_compiled_class_hash.is_empty());
}

#[test]
fn a_read_of_storage_sees_what_was_written() {
    let mut adapter = BlockifierStateAdapter::<ContractClass>::new(7);
    adapter.set_storage_at(f(100), f(5), f(77));
    assert_eq!(adapter.get_storage_at(f(100), f(5)), Ok(Read::Written(f(77))));
    adapter.set_storage_at(f(100), f(5), f(78));
    assert_eq!(adapter.get_storage_at(f(100), f(5)), Ok(Read::Written(f(78))));
}

#[test]
fn a_write_leaves_other_keys_to_the_ledger() {
    let mut adapter = BlockifierStateAdapter::<ContractClass>::new(7);
    adapter.set_storage_at(f(100), f(5), f(77));
    assert_eq!(
        adapter.get_storage_at(f(100), f(6)),
        Ok(Read::Ask(StorageQuery::Storage { contract: f(100), key: f(6), block_number: 7 }))
    );
    assert_eq!(
        adapter.get_storage_at(f(101), f(5)),
        Ok(Read::Ask(StorageQuery::Storage { contract: f(101), key: f(5), block_number: 7 }))
    );
}

#[test]
fn a_written_value_wins_whatever_the_ledger_holds() {
    let mut adapter = BlockifierStateAdapter::<ContractClass>::new(7);
    let query = match adapter.get_storage_at(f(100), f(5)).unwrap() {
        Read::Ask(query) => query,
        Read::Written(_) => panic!("nothing was written yet"),
    };
    assert_eq!(query.resolve(Ok(Some(f(1)))), Ok(f(1)));
    adapter.set_storage_at(f(100), f(5), f(2));
    assert_eq!(adapter.get_storage_at(f(100), f(5)), Ok(Read::Written(f(2))));
}

#[test]
fn storage_that_the_ledger_lacks_reads_as_zero() {
    let query = StorageQuery::Storage { contract: f(100), key: f(5), block_number: 7 };
    assert_eq!(query.resolve(Ok(None)), Ok(Felt::zero()));
    assert_eq!(query.resolve(Ok(Some(f(9)))), Ok(f(9)));
    assert_eq!(
        query.resolve(Err(BackendError)),
        Err(StateError::StateReadError(ReadContext::Storage { contract: f(100), key: f(5) }))
    );
}

#[test]
fn the_oracle_address_reads_block_hashes() {
    let adapter = BlockifierStateAdapter::<ContractClass>::new(7);
    let read = adapter.get_storage_at(Felt::one(), f(3)).unwrap();
    assert_eq!(read, Read::Ask(StorageQuery::BlockHash { block_number: 3 }));
    let query = StorageQuery::BlockHash { block_number: 3 };
    assert_eq!(query.resolve(Ok(Some(f(0xabc)))), Ok(f(0xabc)));
    assert_eq!(query.resolve(Ok(None)), Err(StateError::OldBlockHashNotProvided));
    assert_eq!(
        query.resolve(Err(BackendError)),
        Err(StateError::StateReadError(ReadContext::BlockHash(3)))
    );
}

#[test]
fn the_same_key_elsewhere_is_ordinary_storage() {
    let adapter = BlockifierStateAdapter::<ContractClass>::new(7);
    for contract in [Felt::zero(), f(2), Felt { w3: 0, w2: 0, w1: 1, w0: 1 }] {
        let read = adapter.get_storage_at(contract, f(3)).unwrap();
        assert_eq!(read, Read::Ask(StorageQuery::Storage { contract, key: f(3), block_number: 7 }));
        match read {
            Read::Ask(query) => assert_eq!(query.resolve(Ok(None)), Ok(Felt::zero())),
            Read::Written(_) => panic!("nothing was written"),
        }
    }
}

#[test]
fn the_oracle_address_ignores_what_was_written() {
    let mut adapter = BlockifierStateAdapter::<ContractClass>::new(7);
    adapter.set_storage_at(Felt::one(), f(3), f(55));
    assert_eq!(
        adapter.get_storage_at(Felt::one(), f(3)),
        Ok(Read::Ask(StorageQuery::BlockHash { block_number: 3 }))
    );
}

#[test]
fn a_key_that_is_no_block_number_has_no_block_hash() {
    let adapter = BlockifierStateAdapter::<ContractClass>::new(7);
    let key = Felt { w3: 0, w2: 0, w1: 1, w0: 0 };
    assert_eq!(adapter.get_storage_at(Felt::one(), key), Err(StateError::OldBlockHashNotProvided));
    assert_eq!(
        adapter.get_storage_at(Felt::one(), f(u64::MAX)),
        Ok(Read::Ask(StorageQuery::BlockHash { block_number: u64::MAX }))
    );
}

#[test]
fn a_nonce_that_the_ledger_lacks_is_zero() {
    let adapter = BlockifierStateAdapter::<ContractClass>::new(7);
    let read = adapter.get_nonce_at(f(100));
    assert_eq!(read, Read::Ask(NonceQuery { contract: f(100), block_number: 7 }));
    let query = NonceQuery { contract: f(100), block_number: 7 };
    assert_eq!(query.resolve(Ok(None)), Ok(Felt::zero()));
    assert_eq!(query.resolve(Ok(Some(f(4)))), Ok(f(4)));
    assert_eq!(
        query.resolve(Err(BackendError)),
        Err(StateError::StateReadError(ReadContext::Nonce(f(100))))
    );
}

#[test]
fn a_class_hash_that_the_ledger_lacks_is_zero() {
    let mut adapter = BlockifierStateAdapter::<ContractClass>::new(7);
    assert_eq!(
        adapter.get_class_hash_at(f(100)),
        Read::Ask(ClassHashQuery { contract: f(100), block_number: 7 })
    );
    let query = ClassHashQuery { contract: f(100), block_number: 7 };
    assert_eq!(query.resolve(Ok(None)), Ok(Felt::zero()));
    assert_eq!(query.resolve(Ok(Some(f(4)))), Ok(f(4)));
    assert_eq!(
        query.resolve(Err(BackendError)),
        Err(StateError::StateReadError(ReadContext::ClassHash(f(100))))
    );
    adapter.set_class_hash_at(f(100), f(8));
    assert_eq!(adapter.get_class_hash_at(f(100)), Read::Written(f(8)));
}

#[test]
fn an_undeclared_class_is_an_error() {
    let adapter = BlockifierStateAdapter::<ContractClass>::new(7);
    let query = match adapter.get_compiled_contract_class(f(9)) {
        Read::Ask(query) => query,
        Read::Written(_) => panic!("nothing was declared"),
    };
    assert_eq!(query, ClassQuery { class_hash: f(9) });
    assert_eq!(query.resolve(Ok(None)), Err(StateError::UndeclaredClassHash(f(9))));
    assert_eq!(
        query.resolve(Err(BackendError)),
        Err(StateError::StateReadError(ReadContext::Class(f(9))))
    );
}

#[test]
fn an_undeclared_compiled_class_hash_is_an_error() {
    let mut adapter = BlockifierStateAdapter::<ContractClass>::new(7);
    assert_eq!(
        adapter.get_compiled_class_hash(f(9)),
        Read::Ask(CompiledClassHashQuery { class_hash: f(9) })
    );
    let query = CompiledClassHashQuery { class_hash: f(9) };
    assert_eq!(query.resolve(Ok(None)), Err(StateError::UndeclaredClassHash(f(9))));
    assert_eq!(query.resolve(Ok(Some(f(1)))), Ok(f(1)));
    assert_eq!(
        query.resolve(Err(BackendError)),
        Err(StateError::StateReadError(ReadContext::CompiledClassHash(f(9))))
    );
    adapter.set_compiled_class_hash(f(9), f(10));
    assert_eq!(adapter.get_compiled_class_hash(f(9)), Read::Written(f(10)));
}

#[test]
fn a_declared_class_is_read_back() {
    let mut adapter = BlockifierStateAdapter::<ContractClass>::new(7);
    adapter.set_contract_class(f(9), legacy());
    match adapter.get_compiled_contract_class(f(9)) {
        Read::Written(class) => assert_eq!(*class, legacy()),
        Read::Ask(_) => panic!("the class was declared"),
    }
    adapter.set_contract_class(f(9), compiled());
    match adapter.get_compiled_contract_class(f(9)) {
        Read::Written(class) => assert_eq!(*class, compiled()),
        Read::Ask(_) => panic!("the class was declared"),
    }
}

#[test]
fn the_stored_length_decides_the_format_of_a_stored_class() {
    let query = ClassQuery { class_hash: f(9) };
    assert_eq!(query.resolve(Ok(Some(3))), Ok(ClassFormat::Compiled));
    assert_eq!(query.resolve(Ok(Some(1))), Ok(ClassFormat::Compiled));
    assert_eq!(query.resolve(Ok(Some(u64::MAX))), Ok(ClassFormat::Compiled));
    assert_eq!(query.resolve(Ok(Some(0))), Ok(ClassFormat::Legacy));
}

#[test]
fn a_stored_class_that_cannot_be_read_is_a_read_error() {
    assert_eq!(materialize(ClassFormat::Compiled, Some(compiled())), Ok(compiled()));
    assert_eq!(materialize(ClassFormat::Legacy, Some(legacy())), Ok(legacy()));
    assert_eq!(
        materialize::<ContractClass>(ClassFormat::Compiled, None),
        Err(StateError::StateReadError(ReadContext::ClassV1))
    );
    assert_eq!(
        materialize::<ContractClass>(ClassFormat::Legacy, None),
        Err(StateError::StateReadError(ReadContext::ClassV0))
    );
}

#[test]
fn the_adapter_carries_classes_of_any_form() {
    let mut adapter: BlockifierStateAdapter<String> = BlockifierStateAdapter::new(1);
    adapter.set_contract_class(f(9), "a class".to_string());
    match adapter.get_compiled_contract_class(f(9)) {
        Read::Written(class) => assert_eq!(class, "a class"),
        Read::Ask(_) => panic!("the class was declared"),
    }
}

#[test]
fn a_nonce_is_incremented_from_what_the_ledger_holds() {
    let mut adapter = BlockifierStateAdapter::<ContractClass>::new(7);
    let query = match adapter.increment_nonce(f(100)).unwrap() {
        Read::Ask(query) => query,
        Read::Written(_) => panic!("no nonce was written yet"),
    };
    assert_eq!(query, NonceQuery { contract: f(100), block_number: 7 });
    assert!(adapter.to_state_diff().address_to_nonce.is_empty());
    assert_eq!(adapter.increment_nonce_from(query, Ok(Some(f(4)))), Ok(()));
    assert_eq!(adapter.get_nonce_at(f(100)), Read::Written(f(5)));
}

#[test]
fn a_written_nonce_is_incremented_in_place() {
    let mut adapter = BlockifierStateAdapter::<ContractClass>::new(7);
    let query = NonceQuery { contract: f(100), block_number: 7 };
    adapter.increment_nonce_from(query, Ok(None)).unwrap();
    assert_eq!(adapter.get_nonce_at(f(100)), Read::Written(f(1)));
    assert_eq!(adapter.increment_nonce(f(100)), Ok(Read::Written(())));
    assert_eq!(adapter.increment_nonce(f(100)), Ok(Read::Written(())));
    assert_eq!(adapter.get_nonce_at(f(100)), Read::Written(f(3)));
    assert_eq!(adapter.to_state_diff().address_to_nonce, vec![(f(100), f(3))]);
}

#[test]
fn a_nonce_is_not_incremented_when_the_ledger_fails() {
    let mut adapter = BlockifierStateAdapter::<ContractClass>::new(7);
    let query = NonceQuery { contract: f(100), block_number: 7 };
    assert_eq!(
        adapter.increment_nonce_from(query, Err(BackendError)),
        Err(StateError::StateReadError(ReadContext::Nonce(f(100))))
    );
    assert!(adapter.to_state_diff().address_to_nonce.is_empty());
}

#[test]
fn the_largest_nonce_cannot_be_incremented() {
    let mut adapter = BlockifierStateAdapter::<ContractClass>::new(7);
    let last = Felt { w3: 0x0800_0000_0000_0011, w2: 0, w1: 0, w0: 0 };
    let before_last = Felt { w3: 0x0800_0000_0000_0010, w2: u64::MAX, w1: u64::MAX, w0: u64::MAX };
    let query = NonceQuery { contract: f(100), block_number: 7 };
    assert_eq!(
        adapter.increment_nonce_from(query, Ok(Some(last))),
        Err(StateError::NonceOverflow(last))
    );
    assert_eq!(adapter.get_nonce_at(f(100)), Read::Ask(query));
    assert!(adapter.to_state_diff().address_to_nonce.is_empty());
    assert_eq!(adapter.increment_nonce_from(query, Ok(Some(before_last))), Ok(()));
    assert_eq!(adapter.get_nonce_at(f(100)), Read::Written(last));
    assert_eq!(adapter.increment_nonce(f(100)), Err(StateError::NonceOverflow(last)));
    assert_eq!(adapter.get_nonce_at(f(100)), Read::Written(last));
}

#[test]
fn visited_program_counters_are_merged() {
    let mut adapter = BlockifierStateAdapter::<ContractClass>::new(7);
    assert_eq!(adapter.get_visited_pcs(f(9)), None);
    let first: HashSet<usize> = [1, 2, 3].into_iter().collect();
    let second: HashSet<usize> = [3, 4].into_iter().collect();
    adapter.add_visited_pcs(f(9), &first);
    assert_eq!(adapter.get_visited_pcs(f(9)), Some(&first));
    adapter.add_visited_pcs(f(9), &second);
    let merged: HashSet<usize> = [1, 2, 3, 4].into_iter().collect();
    assert_eq!(adapter.get_visited_pcs(f(9)), Some(&merged));
    assert_eq!(adapter.get_visited_pcs(f(8)), None);
}

#[test]
fn merging_the_same_program_counters_twice_changes_nothing() {
    let mut adapter = BlockifierStateAdapter::<ContractClass>::new(7);
    let pcs: HashSet<usize> = [10, 20].into_iter().collect();
    adapter.add_visited_pcs(f(9), &pcs);
    adapter.add_visited_pcs(f(9), &pcs);
    assert_eq!(adapter.get_visited_pcs(f(9)), Some(&pcs));
    adapter.add_visited_pcs(f(9), &HashSet::new());
    assert_eq!(adapter.get_visited_pcs(f(9)), Some(&pcs));
}

#[test]
fn the_state_diff_lists_writes_in_the_order_of_first_writing() {
    let mut adapter = BlockifierStateAdapter::<ContractClass>::new(7);
    adapter.set_storage_at(f(200), f(2), f(22));
    adapter.set_storage_at(f(100), f(1), f(11));
    adapter.set_storage_at(f(200), f(1), f(21));
    adapter.set_storage_at(f(200), f(2), f(23));
    adapter.set_class_hash_at(f(5), f(50));
    adapter.set_class_hash_at(f(4), f(40));
    adapter.set_compiled_class_hash(f(9), f(90));
    adapter.increment_nonce_from(NonceQuery { contract: f(7), block_number: 7 }, Ok(None)).unwrap();
    adapter.increment_nonce_from(NonceQuery { contract: f(6), block_number: 7 }, Ok(Some(f(9)))).unwrap();
    adapter.set_contract_class(f(9), legacy());
    let diff = adapter.to_state_diff();
    assert_eq!(
        diff.storage_updates,
        vec![
            (f(200), vec![(f(2), f(23)), (f(1), f(21))]),
            (f(100), vec![(f(1), f(11))]),
        ]
    );
    assert_eq!(diff.address_to_class_hash, vec![(f(5), f(50)), (f(4), f(40))]);
    assert_eq!(diff.class_hash_to_compiled_class_hash, vec![(f(9), f(90))]);
    assert_eq!(diff.address_to_nonce, vec![(f(7), f(1)), (f(6), f(10))]);
}

#[test]
fn taking_the_state_diff_clears_nothing() {
    let mut adapter = BlockifierStateAdapter::<ContractClass>::new(7);
    adapter.set_storage_at(f(100), f(1), f(11));
    let first = adapter.to_state_diff();
    let second = adapter.to_state_diff();
    assert_eq!(first, second);
    assert_eq!(adapter.get_storage_at(f(100), f(1)), Ok(Read::Written(f(11))));
}
