//! Contract ABIs: the serialized text stored with a class, the entries of a
//! legacy ABI as they travel on the wire, and the normalized entries kept
//! internally.
//!
//! The wire knows five kinds of entry. Internally only three survive:
//! constructors and L1 handlers are folded into plain functions that carry a
//! fixed name, and the kind they had can afterwards be told by that name
//! alone.

use vstd::prelude::*;
use vstd::utf8::encode_utf8;

verus! {

/// The ABI that accompanies a contract class, kept as the serialized text
/// that was declared with the class.
#[derive(Debug, PartialEq, Eq)]
pub enum ContractAbi {
    Sierra(String),
    Cairo(Option<String>),
}

impl ContractAbi {
    /// Number of bytes of the serialized ABI; zero for a legacy class that
    /// was declared without one.
    pub open spec fn spec_length(&self) -> nat {
        match self {
            ContractAbi::Sierra(abi) => encode_utf8(abi@).len(),
            ContractAbi::Cairo(Some(entries)) => encode_utf8(entries@).len(),
            ContractAbi::Cairo(None) => 0,
        }
    }

    pub fn length(&self) -> (n: usize)
        ensures
            n == self.spec_length(),
    {
        match self {
            ContractAbi::Sierra(abi) => abi.as_str().as_bytes().len(),
            ContractAbi::Cairo(Some(entries)) => entries.as_str().as_bytes().len(),
            ContractAbi::Cairo(None) => 0,
        }
    }
}

/// An ABI as a mathematical value.
pub enum ContractAbiView {
    Sierra(Seq<char>),
    Cairo(Option<Seq<char>>),
}

impl View for ContractAbi {
    type V = ContractAbiView;

    open spec fn view(&self) -> ContractAbiView {
        match self {
            ContractAbi::Sierra(abi) => ContractAbiView::Sierra(abi@),
            ContractAbi::Cairo(Some(entries)) => ContractAbiView::Cairo(Some(entries@)),
            ContractAbi::Cairo(None) => ContractAbiView::Cairo(None),
        }
    }
}

impl Clone for ContractAbi {
    fn clone(&self) -> (copy: Self)
        ensures
            copy == *self,
    {
        match self {
            ContractAbi::Sierra(abi) => ContractAbi::Sierra(abi.clone()),
            ContractAbi::Cairo(Some(entries)) => ContractAbi::Cairo(Some(entries.clone())),
            ContractAbi::Cairo(None) => ContractAbi::Cairo(None),
        }
    }
}


/// How a function may touch state.
#[derive(Debug, Clone, Copy, PartialEq, Eq, Structural)]
pub enum AbiFunctionStateMutabilityWrapper {
    View,
}

/// The tag of a function-like entry.
#[derive(Debug, Clone, Copy, PartialEq, Eq, Structural)]
pub enum AbiFunctionTypeWrapper {
    Function,
    L1handler,
    Constructor,
}

/// The tag of an event entry.
#[derive(Debug, Clone, Copy, PartialEq, Eq, Structural)]
pub enum AbiEventTypeWrapper {
    Event,
}

/// The tag of a struct entry.
#[derive(Debug, Clone, Copy, PartialEq, Eq, Structural)]
pub enum AbiStructTypeWrapper {
    Struct,
}

/// A named, typed parameter.
#[derive(Debug, Clone, PartialEq, Eq)]
pub struct AbiTypedParameterWrapper {
    pub name: String,
    pub ty: String,
}

/// A member of a struct entry.
#[derive(Debug, Clone, PartialEq, Eq)]
pub struct AbiStructMemberWrapper {
    pub name: String,
    pub ty: String,
    /// Offset of the member within the struct.
    pub offset: u64,
}

#[derive(Debug, Clone, PartialEq, Eq)]
pub struct AbiFunctionEntryWrapper {
    pub name: String,
    pub inputs: Vec<AbiTypedParameterWrapper>,
    pub outputs: Vec<AbiTypedParameterWrapper>,
    pub state_mutability: Option<AbiFunctionStateMutabilityWrapper>,
}

#[derive(Debug, Clone, PartialEq, Eq)]
pub struct AbiEventEntryWrapper {
    pub name: String,
    pub keys: Vec<AbiTypedParameterWrapper>,
    pub data: Vec<AbiTypedParameterWrapper>,
}

#[derive(Debug, Clone, PartialEq, Eq)]
pub struct AbiStructEntryWrapper {
    pub name: String,
    pub size: u64,
    pub members: Vec<AbiStructMemberWrapper>,
}

/// A normalized ABI entry.
#[derive(Debug, Clone, PartialEq, Eq)]
pub enum AbiEntryWrapper {
    Function(AbiFunctionEntryWrapper),
    Event(AbiEventEntryWrapper),
    Struct(AbiStructEntryWrapper),
}

/// State mutability as the wire spells it.
#[derive(Debug, Clone, Copy, PartialEq, Eq, Structural)]
pub enum FunctionStateMutability {
    View,
}

/// The tag of a function-like entry on the wire.
#[derive(Debug, Clone, Copy, PartialEq, Eq, Structural)]
pub enum LegacyFunctionAbiType {
    Function,
    L1Handler,
    Constructor,
}

/// The tag of an event entry on the wire.
#[derive(Debug, Clone, Copy, PartialEq, Eq, Structural)]
pub enum LegacyEventAbiType {
    Event,
}

/// The tag of a struct entry on the wire.
#[derive(Debug, Clone, Copy, PartialEq, Eq, Structural)]
pub enum LegacyStructAbiType {
    Struct,
}

/// A named, typed parameter on the wire.
#[derive(Debug, Clone, PartialEq, Eq)]
pub struct LegacyTypedParameter {
    pub name: String,
    pub ty: String,
}

/// A struct member on the wire.
#[derive(Debug, Clone, PartialEq, Eq)]
pub struct RawLegacyMember {
    pub name: String,
    pub offset: u64,
    pub ty: String,
}

#[derive(Debug, Clone, PartialEq, Eq)]
pub struct RawLegacyConstructor {
    pub inputs: Vec<LegacyTypedParameter>,
    pub name: String,
    pub outputs: Vec<LegacyTypedParameter>,
}

#[derive(Debug, Clone, PartialEq, Eq)]
pub struct RawLegacyFunction {
    pub inputs: Vec<LegacyTypedParameter>,
    pub name: String,
    pub outputs: Vec<LegacyTypedParameter>,
    pub state_mutability: Option<FunctionStateMutability>,
}

#[derive(Debug, Clone, PartialEq, Eq)]
pub struct RawLegacyL1Handler {
    pub inputs: Vec<LegacyTypedParameter>,
    pub name: String,
    pub outputs: Vec<LegacyTypedParameter>,
}

#[derive(Debug, Clone, PartialEq, Eq)]
pub struct RawLegacyEvent {
    pub data: Vec<LegacyTypedParameter>,
    pub keys: Vec<LegacyTypedParameter>,
    pub name: String,
}

#[derive(Debug, Clone, PartialEq, Eq)]
pub struct RawLegacyStruct {
    pub members: Vec<RawLegacyMember>,
    pub name: String,
    pub size: u64,
}

/// An ABI entry on the wire, with all five kinds it can have there.
#[derive(Debug, Clone, PartialEq, Eq)]
pub enum RawLegacyAbiEntry {
    Constructor(RawLegacyConstructor),
    Function(RawLegacyFunction),
    Struct(RawLegacyStruct),
    L1Handler(RawLegacyL1Handler),
    Event(RawLegacyEvent),
}

/// What a typed parameter says, whichever side holds it.
pub struct TypedParameterView {
    pub name: Seq<char>,
    pub ty: Seq<char>,
}

/// What a struct member says, whichever side holds it.
pub struct StructMemberView {
    pub name: Seq<char>,
    pub ty: Seq<char>,
    pub offset: u64,
}

/// What a function-like entry says. `view_only` is set when the entry is
/// marked as not changing state.
pub struct FunctionView {
    pub name: Seq<char>,
    pub inputs: Seq<TypedParameterView>,
    pub outputs: Seq<TypedParameterView>,
    pub view_only: bool,
}

pub struct EventView {
    pub name: Seq<char>,
    pub keys: Seq<TypedParameterView>,
    pub data: Seq<TypedParameterView>,
}

pub struct StructView {
    pub name: Seq<char>,
    pub size: u64,
    pub members: Seq<StructMemberView>,
}

/// A normalized entry as a mathematical value.
pub enum AbiEntryView {
    Function(FunctionView),
    Event(EventView),
    Struct(StructView),
}

/// A wire entry as a mathematical value. Constructors and L1 handlers have
/// the shape of a function that cannot be marked view-only.
pub enum RawAbiEntryView {
    Constructor(FunctionView),
    Function(FunctionView),
    Struct(StructView),
    L1Handler(FunctionView),
    Event(EventView),
}

impl View for AbiTypedParameterWrapper {
    type V = TypedParameterView;

    open spec fn view(&self) -> TypedParameterView {
        TypedParameterView { name: self.name@, ty: self.ty@ }
    }
}

impl View for LegacyTypedParameter {
    type V = TypedParameterView;

    open spec fn view(&self) -> TypedParameterView {
        TypedParameterView { name: self.name@, ty: self.ty@ }
    }
}

impl View for AbiStructMemberWrapper {
    type V = StructMemberView;

    open spec fn view(&self) -> StructMemberView {
        StructMemberView { name: self.name@, ty: self.ty@, offset: self.offset }
    }
}

impl View for RawLegacyMember {
    type V = StructMemberView;

    open spec fn view(&self) -> StructMemberView {
        StructMemberView { name: self.name@, ty: self.ty@, offset: self.offset }
    }
}

/// The parameters of a normalized entry, one view for each, in order.
pub open spec fn parameter_views(params: Seq<AbiTypedParameterWrapper>) -> Seq<TypedParameterView> {
    Seq::new(params.len(), |i: int| params[i]@)
}

/// The parameters of a wire entry, one view for each, in order.
pub open spec fn raw_parameter_views(params: Seq<LegacyTypedParameter>) -> Seq<TypedParameterView> {
    Seq::new(params.len(), |i: int| params[i]@)
}

/// The members of a normalized struct entry, one view for each, in order.
pub open spec fn member_views(members: Seq<AbiStructMemberWrapper>) -> Seq<StructMemberView> {
    Seq::new(members.len(), |i: int| members[i]@)
}

/// The members of a wire struct entry, one view for each, in order.
pub open spec fn raw_member_views(members: Seq<RawLegacyMember>) -> Seq<StructMemberView> {
    Seq::new(members.len(), |i: int| members[i]@)
}

impl View for AbiFunctionEntryWrapper {
    type V = FunctionView;

    open spec fn view(&self) -> FunctionView {
        FunctionView {
            name: self.name@,
            inputs: parameter_views(self.inputs@),
            outputs: parameter_views(self.outputs@),
            view_only: self.state_mutability is Some,
        }
    }
}

impl View for RawLegacyFunction {
    type V = FunctionView;

    open spec fn view(&self) -> FunctionView {
        FunctionView {
            name: self.name@,
            inputs: raw_parameter_views(self.inputs@),
            outputs: raw_parameter_views(self.outputs@),
            view_only: self.state_mutability is Some,
        }
    }
}

impl View for RawLegacyConstructor {
    type V = FunctionView;

    open spec fn view(&self) -> FunctionView {
        FunctionView {
            name: self.name@,
            inputs: raw_parameter_views(self.inputs@),
            outputs: raw_parameter_views(self.outputs@),
            view_only: false,
        }
    }
}

impl View for RawLegacyL1Handler {
    type V = FunctionView;

    open spec fn view(&self) -> FunctionView {
        FunctionView {
            name: self.name@,
            inputs: raw_parameter_views(self.inputs@),
            outputs: raw_parameter_views(self.outputs@),
            view_only: false,
        }
    }
}

impl View for AbiEventEntryWrapper {
    type V = EventView;

    open spec fn view(&self) -> EventView {
        EventView {
            name: self.name@,
            keys: parameter_views(self.keys@),
            data: parameter_views(self.data@),
        }
    }
}

impl View for RawLegacyEvent {
    type V = EventView;

    open spec fn view(&self) -> EventView {
        EventView {
            name: self.name@,
            keys: raw_parameter_views(self.keys@),
            data: raw_parameter_views(self.data@),
        }
    }
}

impl View for AbiStructEntryWrapper {
    type V = StructView;

    open spec fn view(&self) -> StructView {
        StructView { name: self.name@, size: self.size, members: member_views(self.members@) }
    }
}

impl View for RawLegacyStruct {
    type V = StructView;

    open spec fn view(&self) -> StructView {
        StructView { name: self.name@, size: self.size, members: raw_member_views(self.members@) }
    }
}

impl View for AbiEntryWrapper {
    type V = AbiEntryView;

    open spec fn view(&self) -> AbiEntryView {
        match self {
            AbiEntryWrapper::Function(f) => AbiEntryView::Function(f@),
            AbiEntryWrapper::Event(e) => AbiEntryView::Event(e@),
            AbiEntryWrapper::Struct(s) => AbiEntryView::Struct(s@),
        }
    }
}

impl View for RawLegacyAbiEntry {
    type V = RawAbiEntryView;

    open spec fn view(&self) -> RawAbiEntryView {
        match self {
            RawLegacyAbiEntry::Constructor(c) => RawAbiEntryView::Constructor(c@),
            RawLegacyAbiEntry::Function(f) => RawAbiEntryView::Function(f@),
            RawLegacyAbiEntry::Struct(s) => RawAbiEntryView::Struct(s@),
            RawLegacyAbiEntry::L1Handler(h) => RawAbiEntryView::L1Handler(h@),
            RawLegacyAbiEntry::Event(e) => RawAbiEntryView::Event(e@),
        }
    }
}


/// The name under which a folded constructor is kept.
pub open spec fn constructor_name() -> Seq<char> {
    "constructor"@
}

/// The name under which a folded L1 handler is kept.
pub open spec fn l1_handler_name() -> Seq<char> {
    "l1_handler"@
}

/// The function that a constructor or an L1 handler is folded into: it keeps
/// the inputs, takes the fixed name, and has neither outputs nor a mark.
pub open spec fn folded(entry: FunctionView, name: Seq<char>) -> FunctionView {
    FunctionView { name, inputs: entry.inputs, outputs: Seq::empty(), view_only: false }
}

/// The normalized entry for a wire entry.
pub open spec fn normalized(entry: RawAbiEntryView) -> AbiEntryView {
    match entry {
        RawAbiEntryView::Function(f) => AbiEntryView::Function(f),
        RawAbiEntryView::Event(e) => AbiEntryView::Event(e),
        RawAbiEntryView::Struct(s) => AbiEntryView::Struct(s),
        RawAbiEntryView::Constructor(c) => AbiEntryView::Function(folded(c, constructor_name())),
        RawAbiEntryView::L1Handler(h) => AbiEntryView::Function(folded(h, l1_handler_name())),
    }
}

/// The wire entry for a normalized entry: always one of the three plain
/// kinds.
pub open spec fn denormalized(entry: AbiEntryView) -> RawAbiEntryView {
    match entry {
        AbiEntryView::Function(f) => RawAbiEntryView::Function(f),
        AbiEntryView::Event(e) => RawAbiEntryView::Event(e),
        AbiEntryView::Struct(s) => RawAbiEntryView::Struct(s),
    }
}

/// The normalized entries for a list of wire entries, or nothing for nothing.
pub open spec fn normalized_list(abi: Option<Seq<RawLegacyAbiEntry>>) -> Option<Seq<AbiEntryView>> {
    match abi {
        Some(entries) => Some(Seq::new(entries.len(), |i: int| normalized(entries[i]@))),
        None => None,
    }
}

/// The wire entries for a list of normalized entries, or nothing for nothing.
pub open spec fn denormalized_list(abi: Option<Seq<AbiEntryWrapper>>) -> Option<
    Seq<RawAbiEntryView>,
> {
    match abi {
        Some(entries) => Some(Seq::new(entries.len(), |i: int| denormalized(entries[i]@))),
        None => None,
    }
}

/// The views of a list of normalized entries that may be absent.
pub open spec fn entry_views(abi: Option<Vec<AbiEntryWrapper>>) -> Option<Seq<AbiEntryView>> {
    match abi {
        Some(entries) => Some(Seq::new(entries@.len(), |i: int| entries@[i]@)),
        None => None,
    }
}

/// The views of a list of wire entries that may be absent.
pub open spec fn raw_entry_views(abi: Option<Vec<RawLegacyAbiEntry>>) -> Option<
    Seq<RawAbiEntryView>,
> {
    match abi {
        Some(entries) => Some(Seq::new(entries@.len(), |i: int| entries@[i]@)),
        None => None,
    }
}

/// Going to the wire and back changes no normalized entry.
pub proof fn lemma_normalized_after_denormalized(entry: AbiEntryView)
    ensures
        normalized(denormalized(entry)) == entry,
{
}

/// Coming from the wire and going back keeps functions, events and structs
/// as they were, and turns a constructor or an L1 handler into a function
/// that can be told only by its name.
pub proof fn lemma_denormalized_after_normalized(entry: RawAbiEntryView)
    ensures
        match entry {
            RawAbiEntryView::Constructor(c) => denormalized(normalized(entry))
                == RawAbiEntryView::Function(folded(c, constructor_name())),
            RawAbiEntryView::L1Handler(h) => denormalized(normalized(entry))
                == RawAbiEntryView::Function(folded(h, l1_handler_name())),
            _ => denormalized(normalized(entry)) == entry,
        },
        !(denormalized(normalized(entry)) is Constructor),
        !(denormalized(normalized(entry)) is L1Handler),
{
}

impl AbiFunctionStateMutabilityWrapper {
    pub open spec fn spec_from(mutability: FunctionStateMutability) -> Self {
        AbiFunctionStateMutabilityWrapper::View
    }

    pub fn from(mutability: FunctionStateMutability) -> (kept: Self)
        ensures
            kept == Self::spec_from(mutability),
    {
        match mutability {
            FunctionStateMutability::View => AbiFunctionStateMutabilityWrapper::View,
        }
    }
}

impl FunctionStateMutability {
    pub open spec fn spec_from(mutability: AbiFunctionStateMutabilityWrapper) -> Self {
        FunctionStateMutability::View
    }

    pub fn from(mutability: AbiFunctionStateMutabilityWrapper) -> (shown: Self)
        ensures
            shown == Self::spec_from(mutability),
    {
        match mutability {
            AbiFunctionStateMutabilityWrapper::View => FunctionStateMutability::View,
        }
    }
}

impl AbiFunctionTypeWrapper {
    pub open spec fn spec_from(tag: LegacyFunctionAbiType) -> Self {
        match tag {
            LegacyFunctionAbiType::Function => AbiFunctionTypeWrapper::Function,
            LegacyFunctionAbiType::L1Handler => AbiFunctionTypeWrapper::L1handler,
            LegacyFunctionAbiType::Constructor => AbiFunctionTypeWrapper::Constructor,
        }
    }

    pub fn from(tag: LegacyFunctionAbiType) -> (kept: Self)
        ensures
            kept == Self::spec_from(tag),
    {
        match tag {
            LegacyFunctionAbiType::Function => AbiFunctionTypeWrapper::Function,
            LegacyFunctionAbiType::L1Handler => AbiFunctionTypeWrapper::L1handler,
            LegacyFunctionAbiType::Constructor => AbiFunctionTypeWrapper::Constructor,
        }
    }
}

impl LegacyFunctionAbiType {
    pub open spec fn spec_from(tag: AbiFunctionTypeWrapper) -> Self {
        match tag {
            AbiFunctionTypeWrapper::Function => LegacyFunctionAbiType::Function,
            AbiFunctionTypeWrapper::L1handler => LegacyFunctionAbiType::L1Handler,
            AbiFunctionTypeWrapper::Constructor => LegacyFunctionAbiType::Constructor,
        }
    }

    pub fn from(tag: AbiFunctionTypeWrapper) -> (shown: Self)
        ensures
            shown == Self::spec_from(tag),
    {
        match tag {
            AbiFunctionTypeWrapper::Function => LegacyFunctionAbiType::Function,
            AbiFunctionTypeWrapper::L1handler => LegacyFunctionAbiType::L1Handler,
            AbiFunctionTypeWrapper::Constructor => LegacyFunctionAbiType::Constructor,
        }
    }
}

/// The two spellings of a function tag name the same three kinds.
pub proof fn lemma_function_type_round_trip(kept: AbiFunctionTypeWrapper, shown: LegacyFunctionAbiType)
    ensures
        AbiFunctionTypeWrapper::spec_from(LegacyFunctionAbiType::spec_from(kept)) == kept,
        LegacyFunctionAbiType::spec_from(AbiFunctionTypeWrapper::spec_from(shown)) == shown,
{
}

impl AbiEventTypeWrapper {
    pub fn from(tag: LegacyEventAbiType) -> (kept: Self)
        ensures
            kept == AbiEventTypeWrapper::Event,
    {
        match tag {
            LegacyEventAbiType::Event => AbiEventTypeWrapper::Event,
        }
    }
}

impl LegacyEventAbiType {
    pub fn from(tag: AbiEventTypeWrapper) -> (shown: Self)
        ensures
            shown == LegacyEventAbiType::Event,
    {
        match tag {
            AbiEventTypeWrapper::Event => LegacyEventAbiType::Event,
        }
    }
}

impl AbiStructTypeWrapper {
    pub fn from(tag: LegacyStructAbiType) -> (kept: Self)
        ensures
            kept == AbiStructTypeWrapper::Struct,
    {
        match tag {
            LegacyStructAbiType::Struct => AbiStructTypeWrapper::Struct,
        }
    }
}

impl LegacyStructAbiType {
    pub fn from(tag: AbiStructTypeWrapper) -> (shown: Self)
        ensures
            shown == LegacyStructAbiType::Struct,
    {
        match tag {
            AbiStructTypeWrapper::Struct => LegacyStructAbiType::Struct,
        }
    }
}

impl AbiTypedParameterWrapper {
    pub fn from(parameter: LegacyTypedParameter) -> (kept: Self)
        ensures
            kept@ == parameter@,
    {
        AbiTypedParameterWrapper { name: parameter.name, ty: parameter.ty }
    }
}

impl LegacyTypedParameter {
    pub fn from(parameter: AbiTypedParameterWrapper) -> (shown: Self)
        ensures
            shown@ == parameter@,
    {
        LegacyTypedParameter { name: parameter.name, ty: parameter.ty }
    }
}

impl AbiStructMemberWrapper {
    pub fn from(member: RawLegacyMember) -> (kept: Self)
        ensures
            kept@ == member@,
    {
        AbiStructMemberWrapper { name: member.name, ty: member.ty, offset: member.offset }
    }
}

impl RawLegacyMember {
    pub fn from(member: AbiStructMemberWrapper) -> (shown: Self)
        ensures
            shown@ == member@,
    {
        RawLegacyMember { name: member.name, ty: member.ty, offset: member.offset }
    }
}

/// The same items in the opposite order.
fn reversed<T>(list: Vec<T>) -> (turned: Vec<T>)
    ensures
        turned@ == list@.reverse(),
{
    let mut list = list;
    let ghost all = list@;
    let mut turned: Vec<T> = Vec::new();
    while list.len() > 0
        invariant
            list@.len() + turned@.len() == all.len(),
            list@ == all.take(list@.len() as int),
            forall|i: int| 0 <= i < turned@.len() ==> turned@[i] == all[all.len() - 1 - i],
        decreases list.len(),
    {
        let item = list.pop().unwrap();
        turned.push(item);
    }
    turned
}

/// The kept form of a list of wire parameters.
fn parameters_from(parameters: Vec<LegacyTypedParameter>) -> (kept: Vec<AbiTypedParameterWrapper>)
    ensures
        parameter_views(kept@) == raw_parameter_views(parameters@),
{
    let ghost all = parameters@;
    let mut rest = reversed(parameters);
    let mut kept: Vec<AbiTypedParameterWrapper> = Vec::new();
    while rest.len() > 0
        invariant
            rest@.len() + kept@.len() == all.len(),
            forall|i: int| 0 <= i < rest@.len() ==> rest@[i] == all[all.len() - 1 - i],
            forall|i: int| 0 <= i < kept@.len() ==> kept@[i]@ == all[i]@,
        decreases rest.len(),
    {
        let parameter = rest.pop().unwrap();
        kept.push(AbiTypedParameterWrapper::from(parameter));
    }
    kept
}

/// The wire form of a list of kept parameters.
fn parameters_into(parameters: Vec<AbiTypedParameterWrapper>) -> (shown: Vec<LegacyTypedParameter>)
    ensures
        raw_parameter_views(shown@) == parameter_views(parameters@),
{
    let ghost all = parameters@;
    let mut rest = reversed(parameters);
    let mut shown: Vec<LegacyTypedParameter> = Vec::new();
    while rest.len() > 0
        invariant
            rest@.len() + shown@.len() == all.len(),
            forall|i: int| 0 <= i < rest@.len() ==> rest@[i] == all[all.len() - 1 - i],
            forall|i: int| 0 <= i < shown@.len() ==> shown@[i]@ == all[i]@,
        decreases rest.len(),
    {
        let parameter = rest.pop().unwrap();
        shown.push(LegacyTypedParameter::from(parameter));
    }
    shown
}

/// The kept form of a list of wire members.
fn members_from(members: Vec<RawLegacyMember>) -> (kept: Vec<AbiStructMemberWrapper>)
    ensures
        member_views(kept@) == raw_member_views(members@),
{
    let ghost all = members@;
    let mut rest = reversed(members);
    let mut kept: Vec<AbiStructMemberWrapper> = Vec::new();
    while rest.len() > 0
        invariant
            rest@.len() + kept@.len() == all.len(),
            forall|i: int| 0 <= i < rest@.len() ==> rest@[i] == all[all.len() - 1 - i],
            forall|i: int| 0 <= i < kept@.len() ==> kept@[i]@ == all[i]@,
        decreases rest.len(),
    {
        let member = rest.pop().unwrap();
        kept.push(AbiStructMemberWrapper::from(member));
    }
    kept
}

/// The wire form of a list of kept members.
fn members_into(members: Vec<AbiStructMemberWrapper>) -> (shown: Vec<RawLegacyMember>)
    ensures
        raw_member_views(shown@) == member_views(members@),
{
    let ghost all = members@;
    let mut rest = reversed(members);
    let mut shown: Vec<RawLegacyMember> = Vec::new();
    while rest.len() > 0
        invariant
            rest@.len() + shown@.len() == all.len(),
            forall|i: int| 0 <= i < rest@.len() ==> rest@[i] == all[all.len() - 1 - i],
            forall|i: int| 0 <= i < shown@.len() ==> shown@[i]@ == all[i]@,
        decreases rest.len(),
    {
        let member = rest.pop().unwrap();
        shown.push(RawLegacyMember::from(member));
    }
    shown
}

/// The kept form of a mark that may be absent.
fn mutability_from(mutability: Option<FunctionStateMutability>) -> (kept: Option<
    AbiFunctionStateMutabilityWrapper,
>)
    ensures
        kept is Some <==> mutability is Some,
{
    match mutability {
        Some(m) => Some(AbiFunctionStateMutabilityWrapper::from(m)),
        None => None,
    }
}

/// The wire form of a mark that may be absent.
fn mutability_into(mutability: Option<AbiFunctionStateMutabilityWrapper>) -> (shown: Option<
    FunctionStateMutability,
>)
    ensures
        shown is Some <==> mutability is Some,
{
    match mutability {
        Some(m) => Some(FunctionStateMutability::from(m)),
        None => None,
    }
}

impl AbiFunctionEntryWrapper {
    pub fn from(entry: RawLegacyFunction) -> (kept: Self)
        ensures
            kept@ == entry@,
    {
        AbiFunctionEntryWrapper {
            name: entry.name,
            inputs: parameters_from(entry.inputs),
            outputs: parameters_from(entry.outputs),
            state_mutability: mutability_from(entry.state_mutability),
        }
    }
}

impl RawLegacyFunction {
    pub fn from(entry: AbiFunctionEntryWrapper) -> (shown: Self)
        ensures
            shown@ == entry@,
    {
        RawLegacyFunction {
            name: entry.name,
            inputs: parameters_into(entry.inputs),
            outputs: parameters_into(entry.outputs),
            state_mutability: mutability_into(entry.state_mutability),
        }
    }
}

impl AbiEventEntryWrapper {
    pub fn from(entry: RawLegacyEvent) -> (kept: Self)
        ensures
            kept@ == entry@,
    {
        AbiEventEntryWrapper {
            name: entry.name,
            keys: parameters_from(entry.keys),
            data: parameters_from(entry.data),
        }
    }
}

impl RawLegacyEvent {
    pub fn from(entry: AbiEventEntryWrapper) -> (shown: Self)
        ensures
            shown@ == entry@,
    {
        RawLegacyEvent {
            name: entry.name,
            keys: parameters_into(entry.keys),
            data: parameters_into(entry.data),
        }
    }
}

impl AbiStructEntryWrapper {
    pub fn from(entry: RawLegacyStruct) -> (kept: Self)
        ensures
            kept@ == entry@,
    {
        AbiStructEntryWrapper {
            name: entry.name,
            size: entry.size,
            members: members_from(entry.members),
        }
    }
}

impl RawLegacyStruct {
    pub fn from(entry: AbiStructEntryWrapper) -> (shown: Self)
        ensures
            shown@ == entry@,
    {
        RawLegacyStruct {
            name: entry.name,
            size: entry.size,
            members: members_into(entry.members),
        }
    }
}

impl AbiEntryWrapper {
    /// Normalizes a wire entry. A constructor or an L1 handler becomes a
    /// function under a fixed name, with its inputs and nothing else.
    pub fn from(entry: RawLegacyAbiEntry) -> (kept: Self)
        ensures
            kept@ == normalized(entry@),
    {
        match entry {
            RawLegacyAbiEntry::Function(function) => AbiEntryWrapper::Function(
                AbiFunctionEntryWrapper::from(function),
            ),
            RawLegacyAbiEntry::Event(event) => AbiEntryWrapper::Event(
                AbiEventEntryWrapper::from(event),
            ),
            RawLegacyAbiEntry::Struct(structure) => AbiEntryWrapper::Struct(
                AbiStructEntryWrapper::from(structure),
            ),
            RawLegacyAbiEntry::Constructor(constructor) => {
                let folded = AbiFunctionEntryWrapper::from(
                    RawLegacyFunction {
                        name: "constructor".to_string(),
                        inputs: constructor.inputs,
                        outputs: Vec::new(),
                        state_mutability: None,
                    },
                );
                assert(folded@.outputs =~= Seq::empty());
                AbiEntryWrapper::Function(folded)
            },
            RawLegacyAbiEntry::L1Handler(handler) => {
                let folded = AbiFunctionEntryWrapper::from(
                    RawLegacyFunction {
                        name: "l1_handler".to_string(),
                        inputs: handler.inputs,
                        outputs: Vec::new(),
                        state_mutability: None,
                    },
                );
                assert(folded@.outputs =~= Seq::empty());
                AbiEntryWrapper::Function(folded)
            },
        }
    }
}

impl RawLegacyAbiEntry {
    /// The wire entry for a normalized one. What was folded stays a
    /// function.
    pub fn from(entry: AbiEntryWrapper) -> (shown: Self)
        ensures
            shown@ == denormalized(entry@),
    {
        match entry {
            AbiEntryWrapper::Function(function) => RawLegacyAbiEntry::Function(
                RawLegacyFunction::from(function),
            ),
            AbiEntryWrapper::Event(event) => RawLegacyAbiEntry::Event(RawLegacyEvent::from(event)),
            AbiEntryWrapper::Struct(structure) => RawLegacyAbiEntry::Struct(
                RawLegacyStruct::from(structure),
            ),
        }
    }
}

/// The wire entries for the normalized entries of an ABI, in order.
pub fn to_rpc_contract_abi(abi: Option<Vec<AbiEntryWrapper>>) -> (shown: Option<
    Vec<RawLegacyAbiEntry>,
>)
    ensures
        raw_entry_views(shown) == denormalized_list(
            match abi {
                Some(entries) => Some(entries@),
                None => None,
            },
        ),
{
    match abi {
        Some(entries) => {
            let ghost all = entries@;
            let mut rest = reversed(entries);
            let mut shown: Vec<RawLegacyAbiEntry> = Vec::new();
            while rest.len() > 0
                invariant
                    rest@.len() + shown@.len() == all.len(),
                    forall|i: int| 0 <= i < rest@.len() ==> rest@[i] == all[all.len() - 1 - i],
                    forall|i: int| 0 <= i < shown@.len() ==> shown@[i]@ == denormalized(all[i]@),
                decreases rest.len(),
            {
                let entry = rest.pop().unwrap();
                shown.push(RawLegacyAbiEntry::from(entry));
            }
            Some(shown)
        },
        None => None,
    }
}

/// The normalized entries for the wire entries of an ABI, in order.
pub fn from_rpc_contract_abi(abi: Option<Vec<RawLegacyAbiEntry>>) -> (kept: Option<
    Vec<AbiEntryWrapper>,
>)
    ensures
        entry_views(kept) == normalized_list(
            match abi {
                Some(entries) => Some(entries@),
                None => None,
            },
        ),
{
    match abi {
        Some(entries) => {
            let ghost all = entries@;
            let mut rest = reversed(entries);
            let mut kept: Vec<AbiEntryWrapper> = Vec::new();
            while rest.len() > 0
                invariant
                    rest@.len() + kept@.len() == all.len(),
                    forall|i: int| 0 <= i < rest@.len() ==> rest@[i] == all[all.len() - 1 - i],
                    forall|i: int| 0 <= i < kept@.len() ==> kept@[i]@ == normalized(all[i]@),
                decreases rest.len(),
            {
                let entry = rest.pop().unwrap();
                kept.push(AbiEntryWrapper::from(entry));
            }
            Some(kept)
        },
        None => None,
    }
}

} // verus!
