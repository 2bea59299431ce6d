//! The state that one execution sees: the ledger as it stood at one block,
//! overlaid with everything the execution has written so far.
//!
//! The adapter never reads the ledger itself. A read that the written state
//! cannot answer comes back as a query; whoever drives the execution puts the
//! query to the ledger and hands the answer to the query's `resolve`, which
//! says what the read yields. Writes stay in the adapter and are dropped with
//! it.

use crate::contract_class::ClassFormat;
use crate::error::ReadContext;
use crate::error::StateError;
use crate::felt::Felt;
use crate::ordered_map::distinct_keys;
use crate::ordered_map::lemma_lookup_mapped;
use crate::ordered_map::lemma_with_entry;
use crate::ordered_map::lemma_with_entry_mapped;
use crate::ordered_map::lemma_with_entry_twice;
use crate::ordered_map::lookup;
use crate::ordered_map::with_entry;
use crate::ordered_map::OrderedMap;
use std::collections::HashSet;
use vstd::prelude::*;

verus! {

/// The ledger could not be read. This is not the same as finding nothing.
#[derive(Debug, Clone, Copy, PartialEq, Eq, Structural)]
pub struct BackendError;

/// What the ledger says to a query: a value, nothing, or a failure.
pub type BackendAnswer<T> = Result<Option<T>, BackendError>;

/// The outcome of a read on the adapter: a value that the execution wrote,
/// or the query to put to the ledger.
#[derive(Debug, Clone, Copy, PartialEq, Eq)]
pub enum Read<T, Q> {
    Written(T),
    Ask(Q),
}

/// A query for a stored value, or for the hash of a block.
#[derive(Debug, Clone, Copy, PartialEq, Eq, Structural)]
pub enum StorageQuery {
    BlockHash { block_number: u64 },
    Storage { contract: Felt, key: Felt, block_number: u64 },
}

/// A query for the nonce of a contract as of a block.
#[derive(Debug, Clone, Copy, PartialEq, Eq, Structural)]
pub struct NonceQuery {
    pub contract: Felt,
    pub block_number: u64,
}

/// A query for the class hash of a contract as of a block.
#[derive(Debug, Clone, Copy, PartialEq, Eq, Structural)]
pub struct ClassHashQuery {
    pub contract: Felt,
    pub block_number: u64,
}

/// A query for the compiled class hash that belongs to a class hash.
#[derive(Debug, Clone, Copy, PartialEq, Eq, Structural)]
pub struct CompiledClassHashQuery {
    pub class_hash: Felt,
}

/// A query for the record stored under a class hash.
#[derive(Debug, Clone, Copy, PartialEq, Eq, Structural)]
pub struct ClassQuery {
    pub class_hash: Felt,
}

/// The address whose storage is the history of block hashes.
pub open spec fn oracle_address() -> Felt {
    Felt { w3: 0, w2: 0, w1: 0, w0: 1 }
}

/// The element that stands for nothing stored.
pub open spec fn zero() -> Felt {
    Felt { w3: 0, w2: 0, w1: 0, w0: 0 }
}

/// What a read of storage yields before the ledger is asked. At the oracle
/// address the key is a block number and the read is one of that block's
/// hash, whatever was written there; anywhere else a written value wins.
pub open spec fn storage_read(
    written: Option<Felt>,
    block_number: u64,
    contract: Felt,
    key: Felt,
) -> Result<Read<Felt, StorageQuery>, StateError> {
    if contract == oracle_address() {
        if key@ <= u64::MAX {
            Ok(Read::Ask(StorageQuery::BlockHash { block_number: key@ as u64 }))
        } else {
            Err(StateError::OldBlockHashNotProvided)
        }
    } else {
        match written {
            Some(value) => Ok(Read::Written(value)),
            None => Ok(Read::Ask(StorageQuery::Storage { contract, key, block_number })),
        }
    }
}

/// What a read of storage yields once the ledger has answered.
pub open spec fn storage_answer(query: StorageQuery, answer: BackendAnswer<Felt>) -> Result<
    Felt,
    StateError,
> {
    match query {
        StorageQuery::BlockHash { block_number } => match answer {
            Ok(Some(hash)) => Ok(hash),
            Ok(None) => Err(StateError::OldBlockHashNotProvided),
            Err(_) => Err(StateError::StateReadError(ReadContext::BlockHash(block_number))),
        },
        StorageQuery::Storage { contract, key, block_number } => match answer {
            Ok(Some(value)) => Ok(value),
            Ok(None) => Ok(zero()),
            Err(_) => Err(StateError::StateReadError(ReadContext::Storage { contract, key })),
        },
    }
}

/// What a read yields that has a default: the value found, zero where there
/// is none, and the error for `context` where the ledger failed.
pub open spec fn answer_or_zero(answer: BackendAnswer<Felt>, context: ReadContext) -> Result<
    Felt,
    StateError,
> {
    match answer {
        Ok(Some(value)) => Ok(value),
        Ok(None) => Ok(zero()),
        Err(_) => Err(StateError::StateReadError(context)),
    }
}

/// What a read of a compiled class hash yields once the ledger has answered.
/// There is no default: nothing found means that the class is not declared.
pub open spec fn compiled_class_hash_answer(
    query: CompiledClassHashQuery,
    answer: BackendAnswer<Felt>,
) -> Result<Felt, StateError> {
    match answer {
        Ok(Some(hash)) => Ok(hash),
        Ok(None) => Err(StateError::UndeclaredClassHash(query.class_hash)),
        Err(_) => Err(
            StateError::StateReadError(ReadContext::CompiledClassHash(query.class_hash)),
        ),
    }
}

/// How the class stored under a class hash is to be read, given the length
/// of the compiled program that is stored beside it: as a compiled class
/// where that length is positive, as a legacy class where it is zero. There
/// is no default: without a record the class is not declared.
pub open spec fn class_answer(query: ClassQuery, answer: BackendAnswer<u64>) -> Result<
    ClassFormat,
    StateError,
> {
    match answer {
        Ok(Some(sierra_program_length)) => Ok(
            if sierra_program_length > 0 {
                ClassFormat::Compiled
            } else {
                ClassFormat::Legacy
            },
        ),
        Ok(None) => Err(StateError::UndeclaredClassHash(query.class_hash)),
        Err(_) => Err(StateError::StateReadError(ReadContext::Class(query.class_hash))),
    }
}

/// What a read of a class yields once the stored class has been read in the
/// format that was asked for: the class, or the error that names the format
/// in which it could not be read.
pub open spec fn materialized<C>(format: ClassFormat, class: Option<C>) -> Result<C, StateError> {
    match class {
        Some(class) => Ok(class),
        None => Err(
            StateError::StateReadError(
                match format {
                    ClassFormat::Compiled => ReadContext::ClassV1,
                    ClassFormat::Legacy => ReadContext::ClassV0,
                },
            ),
        ),
    }
}

impl StorageQuery {
    pub fn resolve(&self, answer: BackendAnswer<Felt>) -> (value: Result<Felt, StateError>)
        ensures
            value == storage_answer(*self, answer),
    {
        match self {
            StorageQuery::BlockHash { block_number } => match answer {
                Ok(Some(hash)) => Ok(hash),
                Ok(None) => Err(StateError::OldBlockHashNotProvided),
                Err(_) => Err(StateError::StateReadError(ReadContext::BlockHash(*block_number))),
            },
            StorageQuery::Storage { contract, key, block_number } => match answer {
                Ok(Some(value)) => Ok(value),
                Ok(None) => Ok(Felt::zero()),
                Err(_) => Err(
                    StateError::StateReadError(
                        ReadContext::Storage { contract: *contract, key: *key },
                    ),
                ),
            },
        }
    }
}

impl NonceQuery {
    pub fn resolve(&self, answer: BackendAnswer<Felt>) -> (nonce: Result<Felt, StateError>)
        ensures
            nonce == answer_or_zero(answer, ReadContext::Nonce(self.contract)),
    {
        match answer {
            Ok(Some(nonce)) => Ok(nonce),
            Ok(None) => Ok(Felt::zero()),
            Err(_) => Err(StateError::StateReadError(ReadContext::Nonce(self.contract))),
        }
    }
}

impl ClassHashQuery {
    pub fn resolve(&self, answer: BackendAnswer<Felt>) -> (class_hash: Result<Felt, StateError>)
        ensures
            class_hash == answer_or_zero(answer, ReadContext::ClassHash(self.contract)),
    {
        match answer {
            Ok(Some(class_hash)) => Ok(class_hash),
            Ok(None) => Ok(Felt::zero()),
            Err(_) => Err(StateError::StateReadError(ReadContext::ClassHash(self.contract))),
        }
    }
}

impl CompiledClassHashQuery {
    pub fn resolve(&self, answer: BackendAnswer<Felt>) -> (hash: Result<Felt, StateError>)
        ensures
            hash == compiled_class_hash_answer(*self, answer),
    {
        match answer {
            Ok(Some(hash)) => Ok(hash),
            Ok(None) => Err(StateError::UndeclaredClassHash(self.class_hash)),
            Err(_) => Err(
                StateError::StateReadError(ReadContext::CompiledClassHash(self.class_hash)),
            ),
        }
    }
}

impl ClassQuery {
    /// Takes the length of the compiled program that is stored for the class
    /// hash and says in which format the stored class is to be read.
    pub fn resolve(&self, answer: BackendAnswer<u64>) -> (format: Result<ClassFormat, StateError>)
        ensures
            format == class_answer(*self, answer),
    {
        match answer {
            Ok(Some(sierra_program_length)) => {
                if sierra_program_length > 0 {
                    Ok(ClassFormat::Compiled)
                } else {
                    Ok(ClassFormat::Legacy)
                }
            },
            Ok(None) => Err(StateError::UndeclaredClassHash(self.class_hash)),
            Err(_) => Err(StateError::StateReadError(ReadContext::Class(self.class_hash))),
        }
    }
}

/// Takes the stored class as it was read in `format`, or `None` where it
/// could not be read so, and yields the outcome of the read.
pub fn materialize<C>(format: ClassFormat, class: Option<C>) -> (read: Result<C, StateError>)
    ensures
        read == materialized(format, class),
{
    match class {
        Some(class) => Ok(class),
        None => match format {
            ClassFormat::Compiled => Err(StateError::StateReadError(ReadContext::ClassV1)),
            ClassFormat::Legacy => Err(StateError::StateReadError(ReadContext::ClassV0)),
        },
    }
}

/// One more item of a sequence of borrowed numbers adds that number to the
/// set of those taken so far.
proof fn lemma_take_one_more(items: Seq<&usize>, taken: int)
    requires
        0 <= taken < items.len(),
    ensures
        items.take(taken + 1).unref().to_set() == items.take(taken).unref().to_set().insert(
            *items[taken],
        ),
        taken + 1 == items.len() ==> items.take(taken + 1) == items,
{
    let seen = items.take(taken).unref();
    let more = items.take(taken + 1).unref();
    assert forall|x: usize| more.to_set().contains(x) <==> seen.to_set().insert(
        *items[taken],
    ).contains(x) by {
        if more.contains(x) {
            let j = choose|j: int| 0 <= j < more.len() && more[j] == x;
            if j < seen.len() {
                assert(seen[j] == x);
            }
        }
        if seen.contains(x) {
            let j = choose|j: int| 0 <= j < seen.len() && seen[j] == x;
            assert(more[j] == x);
        }
        if x == *items[taken] {
            assert(more[seen.len() as int] == x);
        }
    }
}

/// The writes of one execution, in the order in which their keys were first
/// written.
#[derive(Debug, Clone, PartialEq, Eq)]
pub struct CommitmentStateDiff {
    pub address_to_class_hash: Vec<(Felt, Felt)>,
    pub address_to_nonce: Vec<(Felt, Felt)>,
    pub storage_updates: Vec<(Felt, Vec<(Felt, Felt)>)>,
    pub class_hash_to_compiled_class_hash: Vec<(Felt, Felt)>,
}

/// The storage writes of a state diff as a mathematical value.
pub open spec fn storage_updates_view(updates: Seq<(Felt, Vec<(Felt, Felt)>)>) -> Seq<
    (Felt, Seq<(Felt, Felt)>),
> {
    Seq::new(updates.len(), |i: int| (updates[i].0, updates[i].1@))
}

/// The value written at a key of a contract, if any.
pub open spec fn storage_lookup(
    storage: Seq<(Felt, Seq<(Felt, Felt)>)>,
    contract: Felt,
    key: Felt,
) -> Option<Felt> {
    match lookup(storage, contract) {
        Some(slots) => lookup(slots, key),
        None => None,
    }
}

/// The slots written for a contract, none where nothing was written.
pub open spec fn slots_of(storage: Seq<(Felt, Seq<(Felt, Felt)>)>, contract: Felt) -> Seq<
    (Felt, Felt),
> {
    match lookup(storage, contract) {
        Some(slots) => slots,
        None => Seq::empty(),
    }
}

/// The storage writes after a value has been written at a key of a contract.
pub open spec fn storage_with(
    storage: Seq<(Felt, Seq<(Felt, Felt)>)>,
    contract: Felt,
    key: Felt,
    value: Felt,
) -> Seq<(Felt, Seq<(Felt, Felt)>)> {
    with_entry(storage, contract, with_entry(slots_of(storage, contract), key, value))
}

/// The program counters recorded for a class, none where none were.
pub open spec fn pcs_of(visited: Seq<(Felt, Set<usize>)>, class_hash: Felt) -> Set<usize> {
    match lookup(visited, class_hash) {
        Some(pcs) => pcs,
        None => Set::empty(),
    }
}

/// The recorded program counters after more have been added for a class.
pub open spec fn visited_with(visited: Seq<(Felt, Set<usize>)>, class_hash: Felt, pcs: Set<usize>) -> Seq<
    (Felt, Set<usize>),
> {
    with_entry(visited, class_hash, pcs_of(visited, class_hash).union(pcs))
}

/// The nonce writes after the nonce of a contract, which is `nonce` now, has
/// been incremented; the error where `nonce` has no successor.
pub open spec fn nonce_after(nonces: Seq<(Felt, Felt)>, contract: Felt, nonce: Felt) -> Result<
    Seq<(Felt, Felt)>,
    StateError,
> {
    match nonce.spec_try_increment() {
        Some(next) => Ok(with_entry(nonces, contract, next)),
        None => Err(StateError::NonceOverflow(nonce)),
    }
}

/// No contract occurs twice among the storage writes, and no key occurs
/// twice among the slots of a contract.
pub open spec fn distinct_storage(storage: Seq<(Felt, Seq<(Felt, Felt)>)>) -> bool {
    &&& distinct_keys(storage)
    &&& forall|i: int| 0 <= i < storage.len() ==> distinct_keys(#[trigger] storage[i].1)
}

/// The state that one execution sees. Classes are carried and never looked
/// into, so the adapter takes them in whatever form `C` the engine has.
pub struct BlockifierStateAdapter<C> {
    block_number: u64,
    storage_update: OrderedMap<OrderedMap<Felt>>,
    nonce_update: OrderedMap<Felt>,
    class_hash_update: OrderedMap<Felt>,
    compiled_class_hash_update: OrderedMap<Felt>,
    contract_class_update: OrderedMap<C>,
    visited_pcs: OrderedMap<HashSet<usize>>,
}

impl<C> BlockifierStateAdapter<C> {
    /// The maps that hold the writes are sound.
    pub closed spec fn wf(&self) -> bool {
        &&& self.storage_update.wf()
        &&& forall|i: int|
            0 <= i < self.storage_update.entries().len()
                ==> (#[trigger] self.storage_update.entries()[i]).1.wf()
        &&& self.nonce_update.wf()
        &&& self.class_hash_update.wf()
        &&& self.compiled_class_hash_update.wf()
        &&& self.contract_class_update.wf()
        &&& self.visited_pcs.wf()
    }

    /// The block as of which the ledger is read.
    pub closed spec fn snapshot_block(&self) -> u64 {
        self.block_number
    }

    /// The storage writes, contracts and keys in the order in which they
    /// were first written.
    pub closed spec fn storage(&self) -> Seq<(Felt, Seq<(Felt, Felt)>)> {
        Seq::new(
            self.storage_update.entries().len(),
            |i: int|
                (self.storage_update.entries()[i].0, self.storage_update.entries()[i].1.entries()),
        )
    }

    /// The nonce writes.
    pub closed spec fn nonces(&self) -> Seq<(Felt, Felt)> {
        self.nonce_update.entries()
    }

    /// The class hashes written for contracts.
    pub closed spec fn class_hashes(&self) -> Seq<(Felt, Felt)> {
        self.class_hash_update.entries()
    }

    /// The compiled class hashes written for class hashes.
    pub closed spec fn compiled_class_hashes(&self) -> Seq<(Felt, Felt)> {
        self.compiled_class_hash_update.entries()
    }

    /// The classes declared during the execution.
    pub closed spec fn classes(&self) -> Seq<(Felt, C)> {
        self.contract_class_update.entries()
    }

    /// The program counters recorded for each class.
    pub closed spec fn visited(&self) -> Seq<(Felt, Set<usize>)> {
        Seq::new(
            self.visited_pcs.entries().len(),
            |i: int| (self.visited_pcs.entries()[i].0, self.visited_pcs.entries()[i].1@),
        )
    }

    /// In a sound adapter no key occurs twice in any map.
    pub proof fn lemma_distinct(&self)
        requires
            self.wf(),
        ensures
            distinct_storage(self.storage()),
            distinct_keys(self.nonces()),
            distinct_keys(self.class_hashes()),
            distinct_keys(self.compiled_class_hashes()),
            distinct_keys(self.classes()),
            distinct_keys(self.visited()),
    {
        self.storage_update.lemma_distinct();
        self.nonce_update.lemma_distinct();
        self.class_hash_update.lemma_distinct();
        self.compiled_class_hash_update.lemma_distinct();
        self.contract_class_update.lemma_distinct();
        self.visited_pcs.lemma_distinct();
        assert forall|i: int| 0 <= i < self.storage().len() implies distinct_keys(
            #[trigger] self.storage()[i].1,
        ) by {
            self.storage_update.entries()[i].1.lemma_distinct();
        }
    }

    /// An adapter for an execution on top of block `block_number`. Nothing
    /// is written yet.
    pub fn new(block_number: u64) -> (adapter: Self)
        ensures
            adapter.wf(),
            adapter.snapshot_block() == block_number,
            adapter.storage() == Seq::<(Felt, Seq<(Felt, Felt)>)>::empty(),
            adapter.nonces() == Seq::<(Felt, Felt)>::empty(),
            adapter.class_hashes() == Seq::<(Felt, Felt)>::empty(),
            adapter.compiled_class_hashes() == Seq::<(Felt, Felt)>::empty(),
            adapter.classes() == Seq::<(Felt, C)>::empty(),
            adapter.visited() == Seq::<(Felt, Set<usize>)>::empty(),
    {
        let adapter = BlockifierStateAdapter {
            block_number,
            storage_update: OrderedMap::new(),
            nonce_update: OrderedMap::new(),
            class_hash_update: OrderedMap::new(),
            compiled_class_hash_update: OrderedMap::new(),
            contract_class_update: OrderedMap::new(),
            visited_pcs: OrderedMap::new(),
        };
        adapter
    }

    pub fn block_number(&self) -> (n: u64)
        ensures
            n == self.snapshot_block(),
    {
        self.block_number
    }

    /// Reads the nonce of a contract: the one that was written, or else the
    /// query for the one in the ledger.
    pub fn get_nonce_at(&self, contract_address: Felt) -> (read: Read<Felt, NonceQuery>)
        requires
            self.wf(),
        ensures
            read == (match lookup(self.nonces(), contract_address) {
                Some(nonce) => Read::<Felt, NonceQuery>::Written(nonce),
                None => Read::Ask(
                    NonceQuery { contract: contract_address, block_number: self.snapshot_block() },
                ),
            }),
    {
        match self.nonce_update.get(&contract_address) {
            Some(nonce) => Read::Written(*nonce),
            None => Read::Ask(
                NonceQuery { contract: contract_address, block_number: self.block_number },
            ),
        }
    }

    /// Reads the class hash of a contract: the one that was written, or else
    /// the query for the one in the ledger.
    pub fn get_class_hash_at(&self, contract_address: Felt) -> (read: Read<Felt, ClassHashQuery>)
        requires
            self.wf(),
        ensures
            read == (match lookup(self.class_hashes(), contract_address) {
                Some(class_hash) => Read::<Felt, ClassHashQuery>::Written(class_hash),
                None => Read::Ask(
                    ClassHashQuery {
                        contract: contract_address,
                        block_number: self.snapshot_block(),
                    },
                ),
            }),
    {
        match self.class_hash_update.get(&contract_address) {
            Some(class_hash) => Read::Written(*class_hash),
            None => Read::Ask(
                ClassHashQuery { contract: contract_address, block_number: self.block_number },
            ),
        }
    }

    /// Reads the compiled class hash of a class: the one that was written,
    /// or else the query for the one in the ledger.
    pub fn get_compiled_class_hash(&self, class_hash: Felt) -> (read: Read<
        Felt,
        CompiledClassHashQuery,
    >)
        requires
            self.wf(),
        ensures
            read == (match lookup(self.compiled_class_hashes(), class_hash) {
                Some(hash) => Read::<Felt, CompiledClassHashQuery>::Written(hash),
                None => Read::Ask(CompiledClassHashQuery { class_hash }),
            }),
    {
        match self.compiled_class_hash_update.get(&class_hash) {
            Some(hash) => Read::Written(*hash),
            None => Read::Ask(CompiledClassHashQuery { class_hash }),
        }
    }

    /// Reads a class: the one that was declared during the execution, or
    /// else the query for the record in the ledger.
    pub fn get_compiled_contract_class(&self, class_hash: Felt) -> (read: Read<
        &C,
        ClassQuery,
    >)
        requires
            self.wf(),
        ensures
            match read {
                Read::Written(class) => lookup(self.classes(), class_hash) == Some(*class),
                Read::Ask(query) => lookup(self.classes(), class_hash) is None && query
                    == (ClassQuery { class_hash }),
            },
    {
        match self.contract_class_update.get(&class_hash) {
            Some(class) => Read::Written(class),
            None => Read::Ask(ClassQuery { class_hash }),
        }
    }

    /// Writes the class hash of a contract.
    pub fn set_class_hash_at(&mut self, contract_address: Felt, class_hash: Felt)
        requires
            old(self).wf(),
        ensures
            final(self).wf(),
            final(self).class_hashes() == with_entry(
                old(self).class_hashes(),
                contract_address,
                class_hash,
            ),
            final(self).snapshot_block() == old(self).snapshot_block(),
            final(self).storage() == old(self).storage(),
            final(self).nonces() == old(self).nonces(),
            final(self).compiled_class_hashes() == old(self).compiled_class_hashes(),
            final(self).classes() == old(self).classes(),
            final(self).visited() == old(self).visited(),
    {
        self.class_hash_update.insert(contract_address, class_hash);
    }

    /// Declares a class under a hash.
    pub fn set_contract_class(&mut self, class_hash: Felt, contract_class: C)
        requires
            old(self).wf(),
        ensures
            final(self).wf(),
            final(self).classes() == with_entry(old(self).classes(), class_hash, contract_class),
            final(self).snapshot_block() == old(self).snapshot_block(),
            final(self).storage() == old(self).storage(),
            final(self).nonces() == old(self).nonces(),
            final(self).class_hashes() == old(self).class_hashes(),
            final(self).compiled_class_hashes() == old(self).compiled_class_hashes(),
            final(self).visited() == old(self).visited(),
    {
        self.contract_class_update.insert(class_hash, contract_class);
    }

    /// Writes the compiled class hash of a class.
    pub fn set_compiled_class_hash(&mut self, class_hash: Felt, compiled_class_hash: Felt)
        requires
            old(self).wf(),
        ensures
            final(self).wf(),
            final(self).compiled_class_hashes() == with_entry(
                old(self).compiled_class_hashes(),
                class_hash,
                compiled_class_hash,
            ),
            final(self).snapshot_block() == old(self).snapshot_block(),
            final(self).storage() == old(self).storage(),
            final(self).nonces() == old(self).nonces(),
            final(self).class_hashes() == old(self).class_hashes(),
            final(self).classes() == old(self).classes(),
            final(self).visited() == old(self).visited(),
    {
        self.compiled_class_hash_update.insert(class_hash, compiled_class_hash);
    }

    /// Increments the nonce of a contract. The nonce is read as
    /// `get_nonce_at` reads it: where one was written, its successor is
    /// written in its place; where none was, the query for the nonce in the
    /// ledger comes back, to be answered through `increment_nonce_from`.
    /// Nothing is written where the nonce has no successor.
    pub fn increment_nonce(&mut self, contract_address: Felt) -> (done: Result<
        Read<(), NonceQuery>,
        StateError,
    >)
        requires
            old(self).wf(),
        ensures
            final(self).wf(),
            match lookup(old(self).nonces(), contract_address) {
                Some(nonce) => done == (match nonce_after(
                    old(self).nonces(),
                    contract_address,
                    nonce,
                ) {
                    Ok(_) => Ok::<_, StateError>(Read::<(), NonceQuery>::Written(())),
                    Err(e) => Err(e),
                }) && final(self).nonces() == (match nonce_after(
                    old(self).nonces(),
                    contract_address,
                    nonce,
                ) {
                    Ok(nonces) => nonces,
                    Err(_) => old(self).nonces(),
                }),
                None => done == Ok::<_, StateError>(
                    Read::<(), NonceQuery>::Ask(
                        NonceQuery {
                            contract: contract_address,
                            block_number: old(self).snapshot_block(),
                        },
                    ),
                ) && final(self).nonces() == old(self).nonces(),
            },
            final(self).snapshot_block() == old(self).snapshot_block(),
            final(self).storage() == old(self).storage(),
            final(self).class_hashes() == old(self).class_hashes(),
            final(self).compiled_class_hashes() == old(self).compiled_class_hashes(),
            final(self).classes() == old(self).classes(),
            final(self).visited() == old(self).visited(),
    {
        match self.get_nonce_at(contract_address) {
            Read::Written(nonce) => match nonce.try_increment() {
                Some(next) => {
                    self.nonce_update.insert(contract_address, next);
                    Ok(Read::Written(()))
                },
                None => Err(StateError::NonceOverflow(nonce)),
            },
            Read::Ask(query) => Ok(Read::Ask(query)),
        }
    }

    /// Increments the nonce of a contract from the ledger's answer to the
    /// query that `increment_nonce` came back with. A nonce that the ledger
    /// does not have counts as zero; nothing is written where the ledger
    /// failed or the nonce has no successor.
    pub fn increment_nonce_from(&mut self, query: NonceQuery, answer: BackendAnswer<Felt>) -> (done:
        Result<(), StateError>)
        requires
            old(self).wf(),
        ensures
            final(self).wf(),
            match answer_or_zero(answer, ReadContext::Nonce(query.contract)) {
                Ok(nonce) => match nonce_after(old(self).nonces(), query.contract, nonce) {
                    Ok(nonces) => done == Ok::<(), StateError>(()) && final(self).nonces()
                        == nonces,
                    Err(e) => done == Err::<(), _>(e) && final(self).nonces() == old(
                        self,
                    ).nonces(),
                },
                Err(e) => done == Err::<(), _>(e) && final(self).nonces() == old(self).nonces(),
            },
            final(self).snapshot_block() == old(self).snapshot_block(),
            final(self).storage() == old(self).storage(),
            final(self).class_hashes() == old(self).class_hashes(),
            final(self).compiled_class_hashes() == old(self).compiled_class_hashes(),
            final(self).classes() == old(self).classes(),
            final(self).visited() == old(self).visited(),
    {
        let nonce = match query.resolve(answer) {
            Ok(nonce) => nonce,
            Err(e) => { return Err(e); },
        };
        match nonce.try_increment() {
            Some(next) => {
                self.nonce_update.insert(query.contract, next);
                Ok(())
            },
            None => Err(StateError::NonceOverflow(nonce)),
        }
    }

    /// Reads the value at a key of a contract. At the oracle address the
    /// key is a block number and the read is one of that block's hash;
    /// anywhere else a written value wins over the ledger.
    pub fn get_storage_at(&self, contract_address: Felt, key: Felt) -> (read: Result<
        Read<Felt, StorageQuery>,
        StateError,
    >)
        requires
            self.wf(),
        ensures
            read == storage_read(
                storage_lookup(self.storage(), contract_address, key),
                self.snapshot_block(),
                contract_address,
                key,
            ),
    {
        if contract_address == Felt::one() {
            return match key.to_u64() {
                Some(block_number) => Ok(Read::Ask(StorageQuery::BlockHash { block_number })),
                None => Err(StateError::OldBlockHashNotProvided),
            };
        }
        proof {
            self.storage_update.lemma_distinct();
            lemma_lookup_mapped(
                self.storage_update.entries(),
                |slots: OrderedMap<Felt>| slots.entries(),
                self.storage(),
                contract_address,
            );
        }
        let ask = Read::Ask(
            StorageQuery::Storage { contract: contract_address, key, block_number: self.block_number },
        );
        match self.storage_update.get(&contract_address) {
            Some(slots) => {
                proof {
                    let i = crate::ordered_map::position_of(
                        self.storage_update.entries(),
                        contract_address,
                    );
                    assert(crate::ordered_map::key_at(
                        self.storage_update.entries(),
                        contract_address,
                        i,
                    ));
                }
                match slots.get(&key) {
                    Some(value) => Ok(Read::Written(*value)),
                    None => Ok(ask),
                }
            },
            None => Ok(ask),
        }
    }

    /// Writes a value at a key of a contract.
    pub fn set_storage_at(&mut self, contract_address: Felt, key: Felt, value: Felt)
        requires
            old(self).wf(),
        ensures
            final(self).wf(),
            final(self).storage() == storage_with(
                old(self).storage(),
                contract_address,
                key,
                value,
            ),
            final(self).snapshot_block() == old(self).snapshot_block(),
            final(self).nonces() == old(self).nonces(),
            final(self).class_hashes() == old(self).class_hashes(),
            final(self).compiled_class_hashes() == old(self).compiled_class_hashes(),
            final(self).classes() == old(self).classes(),
            final(self).visited() == old(self).visited(),
    {
        let ghost before = self.storage_update.entries();
        let ghost shown = self.storage();
        let ghost project = |slots: OrderedMap<Felt>| slots.entries();
        proof {
            self.storage_update.lemma_distinct();
        }
        let vacant: OrderedMap<Felt> = OrderedMap::new();
        let ghost empty = vacant;
        let mut slots = match self.storage_update.insert(contract_address, vacant) {
            Some(slots) => slots,
            None => OrderedMap::new(),
        };
        slots.insert(key, value);
        self.storage_update.insert(contract_address, slots);
        proof {
            let after = self.storage_update.entries();
            lemma_with_entry_twice(before, contract_address, empty, slots);
            assert(forall|i: int| 0 <= i < after.len() ==> (#[trigger] after[i]).1.wf());
            lemma_with_entry_mapped(
                before,
                project,
                shown,
                contract_address,
                slots,
                self.storage(),
            );
        }
    }

    /// The writes made so far, but for the classes: what was written for
    /// each contract and class hash, in the order in which each was first
    /// written. The adapter stays as it is.
    pub fn to_state_diff(&self) -> (diff: CommitmentStateDiff)
        requires
            self.wf(),
        ensures
            diff.address_to_class_hash@ == self.class_hashes(),
            diff.address_to_nonce@ == self.nonces(),
            storage_updates_view(diff.storage_updates@) == self.storage(),
            diff.class_hash_to_compiled_class_hash@ == self.compiled_class_hashes(),
    {
        let mut storage_updates: Vec<(Felt, Vec<(Felt, Felt)>)> = Vec::new();
        let mut i: usize = 0;
        while i < self.storage_update.len()
            invariant
                self.wf(),
                i <= self.storage_update.entries().len(),
                storage_updates@.len() == i,
                self.storage().len() == self.storage_update.entries().len(),
                storage_updates_view(storage_updates@) == self.storage().take(i as int),
            decreases self.storage_update.entries().len() - i,
        {
            let (contract, slots) = self.storage_update.entry_at(i);
            storage_updates.push((contract, slots.to_vec()));
            assert(forall|j: int|
                0 <= j < i + 1 ==> storage_updates_view(storage_updates@)[j]
                    == self.storage().take(i + 1)[j]);
            i += 1;
        }
        CommitmentStateDiff {
            address_to_class_hash: self.class_hash_update.to_vec(),
            address_to_nonce: self.nonce_update.to_vec(),
            storage_updates,
            class_hash_to_compiled_class_hash: self.compiled_class_hash_update.to_vec(),
        }
    }

    /// The program counters recorded for a class, if any were.
    pub fn get_visited_pcs(&self, class_hash: Felt) -> (pcs: Option<&HashSet<usize>>)
        requires
            self.wf(),
        ensures
            match pcs {
                Some(set) => lookup(self.visited(), class_hash) == Some(set@),
                None => lookup(self.visited(), class_hash) is None,
            },
    {
        proof {
            self.visited_pcs.lemma_distinct();
            lemma_lookup_mapped(
                self.visited_pcs.entries(),
                |set: HashSet<usize>| set@,
                self.visited(),
                class_hash,
            );
        }
        self.visited_pcs.get(&class_hash)
    }

    /// Records program counters that were visited in a class, beside those
    /// recorded before.
    pub fn add_visited_pcs(&mut self, class_hash: Felt, pcs: &HashSet<usize>)
        requires
            old(self).wf(),
        ensures
            final(self).wf(),
            final(self).visited() == visited_with(old(self).visited(), class_hash, pcs@),
            final(self).snapshot_block() == old(self).snapshot_block(),
            final(self).storage() == old(self).storage(),
            final(self).nonces() == old(self).nonces(),
            final(self).class_hashes() == old(self).class_hashes(),
            final(self).compiled_class_hashes() == old(self).compiled_class_hashes(),
            final(self).classes() == old(self).classes(),
    {
        let ghost before = self.visited_pcs.entries();
        let ghost shown = self.visited();
        let ghost project = |set: HashSet<usize>| set@;
        proof {
            self.visited_pcs.lemma_distinct();
        }
        let vacant: HashSet<usize> = HashSet::new();
        let ghost empty = vacant;
        let mut set = match self.visited_pcs.insert(class_hash, vacant) {
            Some(set) => set,
            None => HashSet::new(),
        };
        let ghost recorded = set@;
        for pc in iter: pcs.iter()
            invariant
                iter.seq().unref().to_set() == pcs@,
                set@ == recorded.union(iter.seq().take(iter.index() as int).unref().to_set()),
                iter.index() == iter.seq().len() ==> set@ == recorded.union(pcs@),
        {
            set.insert(*pc);
            assert(set@ =~= recorded.union(iter.seq().take(iter.index() + 1).unref().to_set())
                && (iter.index() + 1 == iter.seq().len() ==> iter.seq().take(iter.index() + 1)
                == iter.seq())) by {
                lemma_take_one_more(iter.seq(), iter.index() as int);
            }
        }
        self.visited_pcs.insert(class_hash, set);
        proof {
            lemma_with_entry_twice(before, class_hash, empty, set);
            lemma_with_entry_mapped(before, project, shown, class_hash, set, self.visited());
        }
    }
}

/// A value written at a key of a contract is what a read of that key
/// yields afterwards, without the ledger being asked, and no other key
/// yields anything else than before. The oracle address is left out: reads
/// there never look at what was written.
pub proof fn lemma_read_your_writes(
    storage: Seq<(Felt, Seq<(Felt, Felt)>)>,
    block_number: u64,
    contract: Felt,
    key: Felt,
    value: Felt,
)
    requires
        distinct_storage(storage),
        contract != oracle_address(),
    ensures
        distinct_storage(storage_with(storage, contract, key, value)),
        storage_read(
            storage_lookup(storage_with(storage, contract, key, value), contract, key),
            block_number,
            contract,
            key,
        ) == Ok::<_, StateError>(Read::<Felt, StorageQuery>::Written(value)),
        forall|other_contract: Felt, other_key: Felt|
            other_contract != contract || other_key != key ==> #[trigger] storage_lookup(
                storage_with(storage, contract, key, value),
                other_contract,
                other_key,
            ) == storage_lookup(storage, other_contract, other_key),
{
    let slots = slots_of(storage, contract);
    let written = with_entry(slots, key, value);
    let after = storage_with(storage, contract, key, value);
    assert(distinct_keys(slots));
    lemma_with_entry(slots, key, value);
    lemma_with_entry(storage, contract, written);
    assert(forall|i: int| 0 <= i < after.len() ==> distinct_keys(#[trigger] after[i].1));
}

/// A nonce or a class hash that the ledger does not have reads as zero, and
/// a stored value likewise; a class or a compiled class hash that the ledger
/// does not have is an error that names the class hash.
pub proof fn lemma_defaults_and_errors(
    context: ReadContext,
    storage: StorageQuery,
    class: ClassQuery,
    compiled: CompiledClassHashQuery,
)
    ensures
        answer_or_zero(Ok(None), context) == Ok::<_, StateError>(zero()),
        storage is Storage ==> storage_answer(storage, Ok(None)) == Ok::<_, StateError>(zero()),
        class_answer(class, Ok(None)) == Err::<ClassFormat, _>(
            StateError::UndeclaredClassHash(class.class_hash),
        ),
        compiled_class_hash_answer(compiled, Ok(None)) == Err::<Felt, _>(
            StateError::UndeclaredClassHash(compiled.class_hash),
        ),
{
}

/// At the oracle address a key that is a block number is read as the hash
/// of that block: the hash where the ledger knows it, an error where it
/// does not, and never a default. At any other address the same key is read
/// as storage, and as zero where nothing is stored.
pub proof fn lemma_oracle_carve_out(
    written: Option<Felt>,
    block_number: u64,
    contract: Felt,
    key: Felt,
    hash: Felt,
)
    requires
        key@ <= u64::MAX,
        contract != oracle_address(),
    ensures
        storage_read(written, block_number, oracle_address(), key) == Ok::<_, StateError>(
            Read::<Felt, StorageQuery>::Ask(StorageQuery::BlockHash { block_number: key@ as u64 }),
        ),
        storage_answer(StorageQuery::BlockHash { block_number: key@ as u64 }, Ok(Some(hash)))
            == Ok::<_, StateError>(hash),
        storage_answer(StorageQuery::BlockHash { block_number: key@ as u64 }, Ok(None))
            == Err::<Felt, _>(StateError::OldBlockHashNotProvided),
        storage_read(None, block_number, contract, key) == Ok::<_, StateError>(
            Read::<Felt, StorageQuery>::Ask(
                StorageQuery::Storage { contract, key, block_number },
            ),
        ),
        storage_answer(StorageQuery::Storage { contract, key, block_number }, Ok(None))
            == Ok::<_, StateError>(zero()),
{
}

/// Adding the same program counters a second time changes nothing.
pub proof fn lemma_add_visited_pcs_twice(
    visited: Seq<(Felt, Set<usize>)>,
    class_hash: Felt,
    pcs: Set<usize>,
)
    requires
        distinct_keys(visited),
    ensures
        visited_with(visited_with(visited, class_hash, pcs), class_hash, pcs) == visited_with(
            visited,
            class_hash,
            pcs,
        ),
{
    let merged = pcs_of(visited, class_hash).union(pcs);
    assert(merged.union(pcs) =~= merged);
    lemma_with_entry_twice(visited, class_hash, merged, merged);
}

} // verus!
