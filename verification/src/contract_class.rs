//! Contract classes in their three forms: the class the execution engine
//! works on, the class as the wire shows it, and the record kept in storage.
//!
//! A class is either legacy or compiled, and so is an ABI. A legacy class
//! goes with a Cairo ABI and a compiled class with a Sierra ABI; any other
//! pairing is refused wherever a class is converted.

use crate::abi::ContractAbi;
use crate::abi::ContractAbiView;
use crate::entry_points::legacy_lists;
use crate::entry_points::sierra_lists;
use crate::entry_points::to_entry_points_by_type;
use crate::entry_points::to_legacy_entry_points_by_type;
use crate::entry_points::EntryPoint;
use crate::entry_points::EntryPointListsView;
use crate::entry_points::EntryPointTable;
use crate::entry_points::EntryPointTableView;
use crate::entry_points::EntryPointV1;
use crate::entry_points::EntryPointsByType;
use crate::entry_points::LegacyContractEntryPoint;
use crate::entry_points::LegacyEntryPointsByType;
use crate::entry_points::SierraEntryPoint;
use crate::error::CodecError;
use crate::felt::Felt;
use crate::json::json_array_len;
use crate::json::json_member;
use crate::json::legacy_abi_json;
use vstd::prelude::*;
use vstd::utf8::encode_utf8;

verus! {

/// A word of a compiled program: a number, or an address within a segment.
#[derive(Debug, Clone, Copy, PartialEq, Eq, Structural)]
pub enum MaybeRelocatable {
    Int(Felt),
    RelocatableValue { segment_index: i64, offset: u64 },
}

/// A legacy class: the serialized program and its entry points.
#[derive(Debug, Clone, PartialEq, Eq)]
pub struct ContractClassV0 {
    pub program: Vec<u8>,
    pub entry_points_by_type: EntryPointTable<EntryPoint>,
}

/// A compiled class: the words of its program and its entry points.
#[derive(Debug, Clone, PartialEq, Eq)]
pub struct ContractClassV1 {
    pub program: Vec<MaybeRelocatable>,
    pub entry_points_by_type: EntryPointTable<EntryPointV1>,
}

/// A class as the execution engine works on it.
#[derive(Debug, Clone, PartialEq, Eq)]
pub enum ContractClass {
    V0(ContractClassV0),
    V1(ContractClassV1),
}

/// The two formats a class can have.
#[derive(Debug, Clone, Copy, PartialEq, Eq, Structural)]
pub enum ClassFormat {
    Legacy,
    Compiled,
}

/// A compiled class on the wire.
#[derive(Debug, Clone, PartialEq, Eq)]
pub struct FlattenedSierraClass {
    pub sierra_program: Vec<Felt>,
    pub contract_class_version: String,
    pub entry_points_by_type: EntryPointsByType,
    pub abi: String,
}

/// A legacy class on the wire. The ABI is the JSON text of its entries.
#[derive(Debug, Clone, PartialEq, Eq)]
pub struct CompressedLegacyContractClass {
    pub program: Vec<u8>,
    pub entry_points_by_type: LegacyEntryPointsByType,
    pub abi: Option<String>,
}

/// A class on the wire.
#[derive(Debug, Clone, PartialEq, Eq)]
pub enum ContractClassCore {
    Sierra(FlattenedSierraClass),
    Legacy(CompressedLegacyContractClass),
}

/// A class with its ABI and the two lengths that are kept beside it.
#[derive(Debug, Clone, PartialEq, Eq)]
pub struct ContractClassWrapper {
    pub contract: ContractClass,
    pub abi: ContractAbi,
    pub sierra_program_length: u64,
    pub abi_length: u64,
}

/// The record that is stored for a class hash.
#[derive(Debug, Clone, PartialEq, Eq)]
pub struct StorageContractClassData {
    pub contract_class: ContractClass,
    pub abi: ContractAbi,
    pub sierra_program_length: u64,
    pub abi_length: u64,
    pub block_number: u64,
}

/// What is stored for a deployed contract.
#[derive(Debug, Clone, Copy, PartialEq, Eq, Structural)]
pub struct StorageContractData {
    pub class_hash: Felt,
    pub nonce: Felt,
}

/// A class under its hash.
#[derive(Debug, Clone, PartialEq, Eq)]
pub struct ContractClassData {
    pub hash: Felt,
    pub contract_class: ContractClassWrapper,
}

/// The classes that one update declares.
#[derive(Debug, Clone, PartialEq, Eq)]
pub struct ClassUpdateWrapper(pub Vec<ContractClassData>);

/// A class as a mathematical value.
pub enum ContractClassView {
    V0 { program: Seq<u8>, entry_points: EntryPointTableView<EntryPoint> },
    V1 { program: Seq<MaybeRelocatable>, entry_points: EntryPointTableView<EntryPointV1> },
}

/// A wire class as a mathematical value.
pub enum ContractClassCoreView {
    Sierra {
        sierra_program: Seq<Felt>,
        contract_class_version: Seq<char>,
        entry_points: EntryPointListsView<SierraEntryPoint>,
        abi: Seq<char>,
    },
    Legacy {
        program: Seq<u8>,
        entry_points: EntryPointListsView<LegacyContractEntryPoint>,
        abi: Option<Seq<char>>,
    },
}

/// A class with its ABI and lengths as a mathematical value.
pub struct ContractClassWrapperView {
    pub contract: ContractClassView,
    pub abi: ContractAbiView,
    pub sierra_program_length: u64,
    pub abi_length: u64,
}

impl View for ContractClassV0 {
    type V = ContractClassView;

    open spec fn view(&self) -> ContractClassView {
        ContractClassView::V0 { program: self.program@, entry_points: self.entry_points_by_type@ }
    }
}

impl View for ContractClassV1 {
    type V = ContractClassView;

    open spec fn view(&self) -> ContractClassView {
        ContractClassView::V1 { program: self.program@, entry_points: self.entry_points_by_type@ }
    }
}

impl View for ContractClass {
    type V = ContractClassView;

    open spec fn view(&self) -> ContractClassView {
        match self {
            ContractClass::V0(class) => class@,
            ContractClass::V1(class) => class@,
        }
    }
}

/// The view of a text that may be absent.
pub open spec fn text_view(text: Option<String>) -> Option<Seq<char>> {
    match text {
        Some(t) => Some(t@),
        None => None,
    }
}

impl View for FlattenedSierraClass {
    type V = ContractClassCoreView;

    open spec fn view(&self) -> ContractClassCoreView {
        ContractClassCoreView::Sierra {
            sierra_program: self.sierra_program@,
            contract_class_version: self.contract_class_version@,
            entry_points: self.entry_points_by_type@,
            abi: self.abi@,
        }
    }
}

impl View for CompressedLegacyContractClass {
    type V = ContractClassCoreView;

    open spec fn view(&self) -> ContractClassCoreView {
        ContractClassCoreView::Legacy {
            program: self.program@,
            entry_points: self.entry_points_by_type@,
            abi: text_view(self.abi),
        }
    }
}

impl View for ContractClassCore {
    type V = ContractClassCoreView;

    open spec fn view(&self) -> ContractClassCoreView {
        match self {
            ContractClassCore::Sierra(class) => class@,
            ContractClassCore::Legacy(class) => class@,
        }
    }
}

impl View for ContractClassWrapper {
    type V = ContractClassWrapperView;

    open spec fn view(&self) -> ContractClassWrapperView {
        ContractClassWrapperView {
            contract: self.contract@,
            abi: self.abi@,
            sierra_program_length: self.sierra_program_length,
            abi_length: self.abi_length,
        }
    }
}

impl ContractClass {
    /// The format of the class.
    pub open spec fn spec_format(&self) -> ClassFormat {
        match self {
            ContractClass::V0(_) => ClassFormat::Legacy,
            ContractClass::V1(_) => ClassFormat::Compiled,
        }
    }

    pub fn format(&self) -> (format: ClassFormat)
        ensures
            format == self.spec_format(),
    {
        match self {
            ContractClass::V0(_) => ClassFormat::Legacy,
            ContractClass::V1(_) => ClassFormat::Compiled,
        }
    }
}

/// The name of the member that only a compiled class has.
pub open spec fn sierra_program_member() -> Seq<char> {
    "sierra_program"@
}

/// The name of the member that holds the ABI.
pub open spec fn abi_member() -> Seq<char> {
    "abi"@
}

/// The version that every compiled class is shown with.
pub open spec fn sierra_class_version() -> Seq<char> {
    "0.1.0"@
}

/// The format that a class given as JSON text is to be read as: compiled
/// where the text has a member `sierra_program`, legacy where it has none.
pub open spec fn wire_format(json: Seq<char>) -> Result<ClassFormat, CodecError> {
    match json_member(json, sierra_program_member()) {
        Some(Some(_)) => Ok(ClassFormat::Compiled),
        Some(None) => Ok(ClassFormat::Legacy),
        None => Err(CodecError::MalformedClass),
    }
}

/// The numbers among the words of a program, in order.
pub open spec fn ints_of(program: Seq<MaybeRelocatable>) -> Seq<Felt>
    decreases program.len(),
{
    if program.len() == 0 {
        Seq::empty()
    } else {
        match program.last() {
            MaybeRelocatable::Int(number) => ints_of(program.drop_last()).push(number),
            MaybeRelocatable::RelocatableValue { .. } => ints_of(program.drop_last()),
        }
    }
}

/// What the wire shows for a compiled class with the text of its ABI.
pub open spec fn sierra_class(
    program: Seq<MaybeRelocatable>,
    entry_points: EntryPointTableView<EntryPointV1>,
    abi: Seq<char>,
) -> Result<ContractClassCoreView, CodecError> {
    match sierra_lists(entry_points) {
        Ok(lists) => Ok(
            ContractClassCoreView::Sierra {
                sierra_program: ints_of(program),
                contract_class_version: sierra_class_version(),
                entry_points: lists,
                abi,
            },
        ),
        Err(e) => Err(e),
    }
}

/// What the wire shows for a legacy class with the text of its ABI, if it
/// has one.
pub open spec fn legacy_class(
    program: Seq<u8>,
    entry_points: EntryPointTableView<EntryPoint>,
    abi: Option<Seq<char>>,
) -> Result<ContractClassCoreView, CodecError> {
    match legacy_lists(entry_points) {
        Ok(lists) => match abi {
            Some(text) => match legacy_abi_json(text) {
                Some(written) => Ok(
                    ContractClassCoreView::Legacy {
                        program,
                        entry_points: lists,
                        abi: Some(written),
                    },
                ),
                None => Err(CodecError::MalformedClass),
            },
            None => Err(CodecError::MissingAbi),
        },
        Err(e) => Err(e),
    }
}

/// What the wire shows for a class and an ABI: the class in its own format
/// where the ABI is of that format too, and a refusal where it is not.
pub open spec fn wire_class(class: ContractClassView, abi: ContractAbiView) -> Result<
    ContractClassCoreView,
    CodecError,
> {
    match (class, abi) {
        (ContractClassView::V0 { program, entry_points }, ContractAbiView::Cairo(text)) => {
            legacy_class(program, entry_points, text)
        },
        (ContractClassView::V1 { program, entry_points }, ContractAbiView::Sierra(text)) => {
            sierra_class(program, entry_points, text)
        },
        _ => Err(CodecError::AbiMismatch),
    }
}

/// The number of items of the compiled program that a JSON text declares,
/// zero where it declares none.
pub open spec fn declared_program_length(json: Seq<char>) -> nat {
    match json_member(json, sierra_program_member()) {
        Some(Some(program)) => match json_array_len(program) {
            Some(n) => n,
            None => 0,
        },
        _ => 0,
    }
}

/// The record for a class that was read from the JSON text `json`.
pub open spec fn class_record(json: Seq<char>, class: ContractClass) -> Result<
    ContractClassWrapperView,
    CodecError,
> {
    match wire_format(json) {
        Err(e) => Err(e),
        Ok(format) => if format != class.spec_format() {
            Err(CodecError::MalformedClass)
        } else {
            match json_member(json, abi_member()) {
                None => Err(CodecError::MalformedClass),
                Some(None) => Err(CodecError::MissingAbi),
                Some(Some(abi)) => Ok(
                    ContractClassWrapperView {
                        contract: class@,
                        abi: if format == ClassFormat::Compiled {
                            ContractAbiView::Sierra(abi)
                        } else {
                            ContractAbiView::Cairo(Some(abi))
                        },
                        sierra_program_length: declared_program_length(json) as u64,
                        abi_length: encode_utf8(abi).len() as u64,
                    },
                ),
            }
        },
    }
}

/// A compiled class never goes with a Cairo ABI, nor a legacy class with a
/// Sierra ABI.
pub proof fn lemma_mixed_pairing_is_refused(class: ContractClassView, abi: ContractAbiView)
    requires
        (class is V1 && abi is Cairo) || (class is V0 && abi is Sierra),
    ensures
        wire_class(class, abi) == Err::<ContractClassCoreView, _>(CodecError::AbiMismatch),
{
}

/// The record of a legacy class says that it has no compiled program.
pub proof fn lemma_legacy_record_has_no_program(json: Seq<char>, class: ContractClass)
    requires
        class is V0,
    ensures
        class_record(json, class) matches Ok(record) ==> record.sierra_program_length == 0
            && record.abi is Cairo,
{
}

/// Decides from the JSON text of a class which format it is to be read as.
pub fn from_rpc_contract_class(json: &str) -> (format: Result<ClassFormat, CodecError>)
    ensures
        format == wire_format(json@),
{
    match crate::json::member(json, "sierra_program") {
        Ok(Some(_)) => Ok(ClassFormat::Compiled),
        Ok(None) => Ok(ClassFormat::Legacy),
        Err(_) => Err(CodecError::MalformedClass),
    }
}

/// The numbers among the words of a program.
fn program_ints(program: &Vec<MaybeRelocatable>) -> (ints: Vec<Felt>)
    ensures
        ints@ == ints_of(program@),
{
    let mut ints: Vec<Felt> = Vec::new();
    let mut i: usize = 0;
    while i < program.len()
        invariant
            i <= program.len(),
            ints@ == ints_of(program@.take(i as int)),
        decreases program.len() - i,
    {
        assert(program@.take(i + 1).drop_last() =~= program@.take(i as int));
        match program[i] {
            MaybeRelocatable::Int(number) => {
                ints.push(number);
            },
            MaybeRelocatable::RelocatableValue { .. } => {},
        }
        i += 1;
    }
    assert(program@.take(i as int) =~= program@);
    ints
}

/// The wire form of a compiled class. Each entry point is numbered by its
/// position in its list, and the program is reduced to its numbers.
pub fn to_contract_class_sierra(sierra_class: &ContractClassV1, abi: String) -> (shown: Result<
    ContractClassCore,
    CodecError,
>)
    ensures
        match shown {
            Ok(class) => self::sierra_class(
                sierra_class.program@,
                sierra_class.entry_points_by_type@,
                abi@,
            ) == Ok::<_, CodecError>(class@),
            Err(e) => self::sierra_class(
                sierra_class.program@,
                sierra_class.entry_points_by_type@,
                abi@,
            ) == Err::<ContractClassCoreView, _>(e),
        },
{
    let entry_points_by_type = match to_entry_points_by_type(&sierra_class.entry_points_by_type) {
        Ok(lists) => lists,
        Err(e) => { return Err(e); },
    };
    let sierra_program = program_ints(&sierra_class.program);
    Ok(
        ContractClassCore::Sierra(
            FlattenedSierraClass {
                sierra_program,
                contract_class_version: "0.1.0".to_string(),
                entry_points_by_type,
                abi,
            },
        ),
    )
}

/// The wire form of a legacy class. The ABI must be there and must be a
/// list of legacy ABI entries.
pub fn to_contract_class_cairo(contract_class: &ContractClassV0, abi: Option<String>) -> (shown:
    Result<ContractClassCore, CodecError>)
    ensures
        match shown {
            Ok(class) => legacy_class(
                contract_class.program@,
                contract_class.entry_points_by_type@,
                text_view(abi),
            ) == Ok::<_, CodecError>(class@),
            Err(e) => legacy_class(
                contract_class.program@,
                contract_class.entry_points_by_type@,
                text_view(abi),
            ) == Err::<ContractClassCoreView, _>(e),
        },
{
    let entry_points_by_type = match to_legacy_entry_points_by_type(
        &contract_class.entry_points_by_type,
    ) {
        Ok(lists) => lists,
        Err(e) => { return Err(e); },
    };
    let text = match abi {
        Some(text) => text,
        None => { return Err(CodecError::MissingAbi); },
    };
    let written = match crate::json::legacy_abi(text.as_str()) {
        Ok(written) => written,
        Err(_) => { return Err(CodecError::MalformedClass); },
    };
    let program = contract_class.program.clone();
    Ok(
        ContractClassCore::Legacy(
            CompressedLegacyContractClass { program, entry_points_by_type, abi: Some(written) },
        ),
    )
}

impl ContractClassWrapper {
    /// The record for a class that was read from the JSON text `json`: the
    /// class, the ABI that the text holds, and the two lengths.
    pub fn try_from(json: &str, contract: ContractClass) -> (record: Result<Self, CodecError>)
        ensures
            match record {
                Ok(wrapper) => class_record(json@, contract) == Ok::<_, CodecError>(wrapper@),
                Err(e) => class_record(json@, contract) == Err::<ContractClassWrapperView, _>(e),
            },
    {
        let format = match from_rpc_contract_class(json) {
            Ok(format) => format,
            Err(e) => { return Err(e); },
        };
        if format != contract.format() {
            return Err(CodecError::MalformedClass);
        }
        let abi_string = match crate::json::member(json, "abi") {
            Ok(Some(text)) => text,
            Ok(None) => { return Err(CodecError::MissingAbi); },
            Err(_) => { return Err(CodecError::MalformedClass); },
        };
        let sierra_program_length: usize = match crate::json::member(json, "sierra_program") {
            Ok(Some(program)) => match crate::json::array_len(program.as_str()) {
                Some(n) => n,
                None => 0,
            },
            _ => 0,
        };
        let abi_length: usize = abi_string.as_str().as_bytes().len();
        let abi = match format {
            ClassFormat::Compiled => ContractAbi::Sierra(abi_string),
            ClassFormat::Legacy => ContractAbi::Cairo(Some(abi_string)),
        };
        Ok(
            ContractClassWrapper {
                contract,
                abi,
                sierra_program_length: sierra_program_length as u64,
                abi_length: abi_length as u64,
            },
        )
    }

    /// The wire form of the class, where class and ABI are of one format.
    pub fn try_into(self) -> (shown: Result<ContractClassCore, CodecError>)
        ensures
            match shown {
                Ok(class) => wire_class(self.contract@, self.abi@) == Ok::<_, CodecError>(class@),
                Err(e) => wire_class(self.contract@, self.abi@) == Err::<ContractClassCoreView, _>(
                    e,
                ),
            },
    {
        match self.contract {
            ContractClass::V0(contract_class) => match self.abi {
                ContractAbi::Cairo(text) => to_contract_class_cairo(&contract_class, text),
                ContractAbi::Sierra(_) => Err(CodecError::AbiMismatch),
            },
            ContractClass::V1(contract_class) => match self.abi {
                ContractAbi::Sierra(text) => to_contract_class_sierra(&contract_class, text),
                ContractAbi::Cairo(_) => Err(CodecError::AbiMismatch),
            },
        }
    }
}

} // verus!
