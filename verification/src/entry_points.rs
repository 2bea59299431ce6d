//! Entry points and the reshaping of their lists between the form kept with
//! a class and the forms that travel on the wire.
//!
//! A class keeps at most one list for each kind of entry point, and a kind
//! may have no list at all. The wire always has three lists. On the way out a
//! missing constructor or L1-handler list becomes an empty one, a missing
//! external list is an error, and the entry points of a compiled class are
//! numbered by where they stand in their list.

use crate::error::CodecError;
use crate::felt::Felt;
use vstd::prelude::*;

verus! {

/// The kinds of entry point.
#[derive(Debug, Clone, Copy, PartialEq, Eq, Hash, Structural)]
pub enum EntryPointType {
    Constructor,
    External,
    L1Handler,
}

/// An entry point of a legacy class: a selector and the offset of its code.
#[derive(Debug, Clone, Copy, PartialEq, Eq, Structural)]
pub struct EntryPoint {
    pub selector: Felt,
    pub offset: u64,
}

/// An entry point of a compiled class: a selector and the index of its
/// function.
#[derive(Debug, Clone, Copy, PartialEq, Eq, Structural)]
pub struct EntryPointV1 {
    pub selector: Felt,
    pub function_idx: u64,
}

/// The entry points of a class by kind. A kind without a list is `None`.
#[derive(Debug, Clone, PartialEq, Eq)]
pub struct EntryPointTable<E> {
    pub constructor: Option<Vec<E>>,
    pub external: Option<Vec<E>>,
    pub l1_handler: Option<Vec<E>>,
}

/// An entry point of a legacy class on the wire.
#[derive(Debug, Clone, Copy, PartialEq, Eq, Structural)]
pub struct LegacyContractEntryPoint {
    pub offset: u64,
    pub selector: Felt,
}

/// The entry points of a legacy class on the wire.
#[derive(Debug, Clone, PartialEq, Eq)]
pub struct LegacyEntryPointsByType {
    pub constructor: Vec<LegacyContractEntryPoint>,
    pub external: Vec<LegacyContractEntryPoint>,
    pub l1_handler: Vec<LegacyContractEntryPoint>,
}

/// An entry point of a compiled class on the wire.
#[derive(Debug, Clone, Copy, PartialEq, Eq, Structural)]
pub struct SierraEntryPoint {
    pub selector: Felt,
    pub function_idx: u64,
}

/// The entry points of a compiled class on the wire.
#[derive(Debug, Clone, PartialEq, Eq)]
pub struct EntryPointsByType {
    pub constructor: Vec<SierraEntryPoint>,
    pub external: Vec<SierraEntryPoint>,
    pub l1_handler: Vec<SierraEntryPoint>,
}

/// An offset as a class artifact spells it: the same number, written in hex
/// or in decimal.
#[derive(Debug, Clone, Copy, PartialEq, Eq, Structural)]
pub enum LegacyEntrypointOffset {
    U64AsHex(u64),
    U64AsInt(u64),
}

/// An entry point as a class artifact holds it.
#[derive(Debug, Clone, Copy, PartialEq, Eq, Structural)]
pub struct RawLegacyEntryPoint {
    pub offset: LegacyEntrypointOffset,
    pub selector: Felt,
}

/// The entry points of a class artifact.
#[derive(Debug, Clone, PartialEq, Eq)]
pub struct RawLegacyEntryPoints {
    pub constructor: Vec<RawLegacyEntryPoint>,
    pub external: Vec<RawLegacyEntryPoint>,
    pub l1_handler: Vec<RawLegacyEntryPoint>,
}

/// A table of entry points as a mathematical value.
pub struct EntryPointTableView<E> {
    pub constructor: Option<Seq<E>>,
    pub external: Option<Seq<E>>,
    pub l1_handler: Option<Seq<E>>,
}

/// Three lists of entry points as a mathematical value.
pub struct EntryPointListsView<E> {
    pub constructor: Seq<E>,
    pub external: Seq<E>,
    pub l1_handler: Seq<E>,
}

/// The view of a list that may be absent.
pub open spec fn list_view<E>(list: Option<Vec<E>>) -> Option<Seq<E>> {
    match list {
        Some(v) => Some(v@),
        None => None,
    }
}

impl<E> View for EntryPointTable<E> {
    type V = EntryPointTableView<E>;

    open spec fn view(&self) -> EntryPointTableView<E> {
        EntryPointTableView {
            constructor: list_view(self.constructor),
            external: list_view(self.external),
            l1_handler: list_view(self.l1_handler),
        }
    }
}

impl View for LegacyEntryPointsByType {
    type V = EntryPointListsView<LegacyContractEntryPoint>;

    open spec fn view(&self) -> EntryPointListsView<LegacyContractEntryPoint> {
        EntryPointListsView {
            constructor: self.constructor@,
            external: self.external@,
            l1_handler: self.l1_handler@,
        }
    }
}

impl View for EntryPointsByType {
    type V = EntryPointListsView<SierraEntryPoint>;

    open spec fn view(&self) -> EntryPointListsView<SierraEntryPoint> {
        EntryPointListsView {
            constructor: self.constructor@,
            external: self.external@,
            l1_handler: self.l1_handler@,
        }
    }
}

impl View for RawLegacyEntryPoints {
    type V = EntryPointListsView<RawLegacyEntryPoint>;

    open spec fn view(&self) -> EntryPointListsView<RawLegacyEntryPoint> {
        EntryPointListsView {
            constructor: self.constructor@,
            external: self.external@,
            l1_handler: self.l1_handler@,
        }
    }
}

impl LegacyEntrypointOffset {
    /// The number, however it was written.
    pub open spec fn spec_value(&self) -> u64 {
        match self {
            LegacyEntrypointOffset::U64AsHex(n) => *n,
            LegacyEntrypointOffset::U64AsInt(n) => *n,
        }
    }

    pub fn value(&self) -> (n: u64)
        ensures
            n == self.spec_value(),
    {
        match self {
            LegacyEntrypointOffset::U64AsHex(n) => *n,
            LegacyEntrypointOffset::U64AsInt(n) => *n,
        }
    }
}

/// A legacy entry point as the wire shows it.
pub open spec fn legacy_entry_point(entry_point: EntryPoint) -> LegacyContractEntryPoint {
    LegacyContractEntryPoint { offset: entry_point.offset, selector: entry_point.selector }
}

/// A compiled entry point as the wire shows it when it stands at `index`.
pub open spec fn sierra_entry_point(entry_point: EntryPointV1, index: u64) -> SierraEntryPoint {
    SierraEntryPoint { selector: entry_point.selector, function_idx: index }
}

/// The entry point that a class keeps for one of an artifact.
pub open spec fn entry_point_of_raw(entry_point: RawLegacyEntryPoint) -> EntryPoint {
    EntryPoint { selector: entry_point.selector, offset: entry_point.offset.spec_value() }
}

/// A list of legacy entry points as the wire shows it.
pub open spec fn legacy_list(list: Seq<EntryPoint>) -> Seq<LegacyContractEntryPoint> {
    Seq::new(list.len(), |i: int| legacy_entry_point(list[i]))
}

/// A list of compiled entry points as the wire shows it: each one numbered
/// by its position.
pub open spec fn sierra_list(list: Seq<EntryPointV1>) -> Seq<SierraEntryPoint> {
    Seq::new(list.len(), |i: int| sierra_entry_point(list[i], i as u64))
}

/// The list that a class keeps for one of an artifact.
pub open spec fn list_of_raw(list: Seq<RawLegacyEntryPoint>) -> Seq<EntryPoint> {
    Seq::new(list.len(), |i: int| entry_point_of_raw(list[i]))
}

/// What the wire shows for a list that may be absent and need not be there.
pub open spec fn optional_list<E, W>(list: Option<Seq<E>>, shown: spec_fn(Seq<E>) -> Seq<W>) -> Seq<
    W,
> {
    match list {
        Some(l) => shown(l),
        None => Seq::empty(),
    }
}

/// The three wire lists of a legacy table, or the error for a table without
/// an external list.
pub open spec fn legacy_lists(table: EntryPointTableView<EntryPoint>) -> Result<
    EntryPointListsView<LegacyContractEntryPoint>,
    CodecError,
> {
    match table.external {
        Some(external) => Ok(
            EntryPointListsView {
                constructor: optional_list(table.constructor, |l: Seq<EntryPoint>| legacy_list(l)),
                external: legacy_list(external),
                l1_handler: optional_list(table.l1_handler, |l: Seq<EntryPoint>| legacy_list(l)),
            },
        ),
        None => Err(CodecError::UnsupportedEntryPointKind(EntryPointType::External)),
    }
}

/// The three wire lists of a compiled table, or the error for a table
/// without an external list.
pub open spec fn sierra_lists(table: EntryPointTableView<EntryPointV1>) -> Result<
    EntryPointListsView<SierraEntryPoint>,
    CodecError,
> {
    match table.external {
        Some(external) => Ok(
            EntryPointListsView {
                constructor: optional_list(
                    table.constructor,
                    |l: Seq<EntryPointV1>| sierra_list(l),
                ),
                external: sierra_list(external),
                l1_handler: optional_list(table.l1_handler, |l: Seq<EntryPointV1>| sierra_list(l)),
            },
        ),
        None => Err(CodecError::UnsupportedEntryPointKind(EntryPointType::External)),
    }
}

/// The list a table holds for the entries of an artifact: none where the
/// artifact has no entry of that kind.
pub open spec fn bucket_of_raw(list: Seq<RawLegacyEntryPoint>) -> Option<Seq<EntryPoint>> {
    if list.len() == 0 {
        None
    } else {
        Some(list_of_raw(list))
    }
}

/// The table a class keeps for the entry points of an artifact.
pub open spec fn table_of_raw(raw: EntryPointListsView<RawLegacyEntryPoint>) -> EntryPointTableView<
    EntryPoint,
> {
    EntryPointTableView {
        constructor: bucket_of_raw(raw.constructor),
        external: bucket_of_raw(raw.external),
        l1_handler: bucket_of_raw(raw.l1_handler),
    }
}

impl<E> EntryPointTable<E> {
    /// The list kept for a kind, if there is one.
    pub fn get(&self, kind: EntryPointType) -> (list: Option<&Vec<E>>)
        ensures
            list_view_ref(list) == (match kind {
                EntryPointType::Constructor => self@.constructor,
                EntryPointType::External => self@.external,
                EntryPointType::L1Handler => self@.l1_handler,
            }),
    {
        match kind {
            EntryPointType::Constructor => self.constructor.as_ref(),
            EntryPointType::External => self.external.as_ref(),
            EntryPointType::L1Handler => self.l1_handler.as_ref(),
        }
    }
}

/// The view of a borrowed list that may be absent.
pub open spec fn list_view_ref<E>(list: Option<&Vec<E>>) -> Option<Seq<E>> {
    match list {
        Some(v) => Some(v@),
        None => None,
    }
}

pub fn to_legacy_entry_point(entry_point: EntryPoint) -> (shown: LegacyContractEntryPoint)
    ensures
        shown == legacy_entry_point(entry_point),
{
    LegacyContractEntryPoint { selector: entry_point.selector, offset: entry_point.offset }
}

pub fn to_entry_point(entry_point: EntryPointV1, index: u64) -> (shown: SierraEntryPoint)
    ensures
        shown == sierra_entry_point(entry_point, index),
{
    SierraEntryPoint { selector: entry_point.selector, function_idx: index }
}

pub fn from_legacy_entry_point(entry_point: &RawLegacyEntryPoint) -> (kept: EntryPoint)
    ensures
        kept == entry_point_of_raw(*entry_point),
{
    EntryPoint { selector: entry_point.selector, offset: entry_point.offset.value() }
}

/// The wire form of one list of a legacy table.
fn collect_legacy_entry_points(list: &Vec<EntryPoint>) -> (shown: Vec<LegacyContractEntryPoint>)
    ensures
        shown@ == legacy_list(list@),
{
    let mut shown: Vec<LegacyContractEntryPoint> = Vec::new();
    let mut i: usize = 0;
    while i < list.len()
        invariant
            i <= list.len(),
            shown@ == legacy_list(list@.take(i as int)),
        decreases list.len() - i,
    {
        shown.push(to_legacy_entry_point(list[i]));
        i += 1;
    }
    shown
}

/// The wire form of one list of a compiled table.
fn collect_entry_points(list: &Vec<EntryPointV1>) -> (shown: Vec<SierraEntryPoint>)
    ensures
        shown@ == sierra_list(list@),
{
    let mut shown: Vec<SierraEntryPoint> = Vec::new();
    let mut i: usize = 0;
    while i < list.len()
        invariant
            i <= list.len(),
            shown@ == sierra_list(list@.take(i as int)),
        decreases list.len() - i,
    {
        shown.push(to_entry_point(list[i], i as u64));
        i += 1;
    }
    shown
}

/// The kept form of one list of an artifact.
fn collect_raw_entry_points(list: &Vec<RawLegacyEntryPoint>) -> (kept: Option<Vec<EntryPoint>>)
    ensures
        list_view(kept) == bucket_of_raw(list@),
{
    if list.len() == 0 {
        return None;
    }
    let mut kept: Vec<EntryPoint> = Vec::new();
    let mut i: usize = 0;
    while i < list.len()
        invariant
            i <= list.len(),
            kept@ == list_of_raw(list@.take(i as int)),
        decreases list.len() - i,
    {
        kept.push(from_legacy_entry_point(&list[i]));
        i += 1;
    }
    Some(kept)
}

/// The three wire lists of a legacy class. A table without an external list
/// is refused; missing constructor and L1-handler lists come out empty.
pub fn to_legacy_entry_points_by_type(entries: &EntryPointTable<EntryPoint>) -> (shown: Result<
    LegacyEntryPointsByType,
    CodecError,
>)
    ensures
        match shown {
            Ok(lists) => legacy_lists(entries@) == Ok::<_, CodecError>(lists@),
            Err(e) => legacy_lists(entries@) == Err::<
                EntryPointListsView<LegacyContractEntryPoint>,
                _,
            >(e),
        },
{
    let constructor = match entries.get(EntryPointType::Constructor) {
        Some(list) => collect_legacy_entry_points(list),
        None => Vec::new(),
    };
    let external = match entries.get(EntryPointType::External) {
        Some(list) => collect_legacy_entry_points(list),
        None => { return Err(CodecError::UnsupportedEntryPointKind(EntryPointType::External)); },
    };
    let l1_handler = match entries.get(EntryPointType::L1Handler) {
        Some(list) => collect_legacy_entry_points(list),
        None => Vec::new(),
    };
    Ok(LegacyEntryPointsByType { constructor, external, l1_handler })
}

/// The three wire lists of a compiled class, each entry point numbered by
/// its position in its list. A table without an external list is refused;
/// missing constructor and L1-handler lists come out empty.
pub fn to_entry_points_by_type(entries: &EntryPointTable<EntryPointV1>) -> (shown: Result<
    EntryPointsByType,
    CodecError,
>)
    ensures
        match shown {
            Ok(lists) => sierra_lists(entries@) == Ok::<_, CodecError>(lists@),
            Err(e) => sierra_lists(entries@) == Err::<EntryPointListsView<SierraEntryPoint>, _>(e),
        },
{
    let constructor = match entries.get(EntryPointType::Constructor) {
        Some(list) => collect_entry_points(list),
        None => Vec::new(),
    };
    let external = match entries.get(EntryPointType::External) {
        Some(list) => collect_entry_points(list),
        None => { return Err(CodecError::UnsupportedEntryPointKind(EntryPointType::External)); },
    };
    let l1_handler = match entries.get(EntryPointType::L1Handler) {
        Some(list) => collect_entry_points(list),
        None => Vec::new(),
    };
    Ok(EntryPointsByType { constructor, external, l1_handler })
}

/// The table a class keeps for the entry points of an artifact. A kind of
/// which the artifact has no entry point gets no list.
pub fn from_legacy_entry_points_by_type(entries: &RawLegacyEntryPoints) -> (kept: EntryPointTable<
    EntryPoint,
>)
    ensures
        kept@ == table_of_raw(entries@),
{
    EntryPointTable {
        constructor: collect_raw_entry_points(&entries.constructor),
        external: collect_raw_entry_points(&entries.external),
        l1_handler: collect_raw_entry_points(&entries.l1_handler),
    }
}

/// The wire entry point for one of an artifact, its offset read as a number.
pub open spec fn legacy_entry_point_of_raw(entry_point: RawLegacyEntryPoint) -> LegacyContractEntryPoint {
    LegacyContractEntryPoint {
        offset: entry_point.offset.spec_value(),
        selector: entry_point.selector,
    }
}

/// The wire list for a list of an artifact.
pub open spec fn legacy_list_of_raw(list: Seq<RawLegacyEntryPoint>) -> Seq<LegacyContractEntryPoint> {
    Seq::new(list.len(), |i: int| legacy_entry_point_of_raw(list[i]))
}

/// On the wire the entry points of a compiled class are numbered 0, 1, 2, ...
/// within each list, in the order in which the class keeps them, whatever
/// indices the class has for them.
pub proof fn lemma_function_indices_are_positions(table: EntryPointTableView<EntryPointV1>)
    requires
        table.external is Some,
        optional_len(table.constructor) <= u64::MAX,
        optional_len(table.external) <= u64::MAX,
        optional_len(table.l1_handler) <= u64::MAX,
    ensures
        sierra_lists(table) matches Ok(lists) && numbered(lists.constructor, table.constructor)
            && numbered(lists.external, table.external) && numbered(
            lists.l1_handler,
            table.l1_handler,
        ),
{
}

/// The length of a list that may be absent.
pub open spec fn optional_len<E>(list: Option<Seq<E>>) -> nat {
    match list {
        Some(l) => l.len(),
        None => 0,
    }
}

/// `shown` has one entry point for each of `kept`, with the same selector and
/// with its position for an index.
pub open spec fn numbered(shown: Seq<SierraEntryPoint>, kept: Option<Seq<EntryPointV1>>) -> bool {
    &&& shown.len() == optional_len(kept)
    &&& forall|i: int|
        0 <= i < shown.len() ==> (#[trigger] shown[i]).function_idx == i && shown[i].selector
            == kept->0[i].selector
}

/// Two compiled tables whose entry points have the same selectors in the same
/// order look the same on the wire, whatever indices they hold.
pub proof fn lemma_function_indices_are_ignored(
    first: EntryPointTableView<EntryPointV1>,
    second: EntryPointTableView<EntryPointV1>,
)
    requires
        same_selectors(first.constructor, second.constructor),
        same_selectors(first.external, second.external),
        same_selectors(first.l1_handler, second.l1_handler),
    ensures
        sierra_lists(first) == sierra_lists(second),
{
    if first.external is Some {
        let a = sierra_lists(first)->Ok_0;
        let b = sierra_lists(second)->Ok_0;
        assert(a.constructor =~= b.constructor);
        assert(a.external =~= b.external);
        assert(a.l1_handler =~= b.l1_handler);
    }
}

/// Both lists are absent, or both are there with the same selectors in the
/// same order.
pub open spec fn same_selectors(first: Option<Seq<EntryPointV1>>, second: Option<Seq<EntryPointV1>>) -> bool {
    match (first, second) {
        (Some(a), Some(b)) => a.len() == b.len() && forall|i: int|
            0 <= i < a.len() ==> (#[trigger] a[i]).selector == b[i].selector,
        (None, None) => true,
        _ => false,
    }
}

/// An artifact that has external entry points comes back unchanged: the
/// table kept for it shows, on the wire, the same entry points in the same
/// three lists.
pub proof fn lemma_legacy_entry_points_round_trip(raw: EntryPointListsView<RawLegacyEntryPoint>)
    requires
        raw.external.len() > 0,
    ensures
        legacy_lists(table_of_raw(raw)) == Ok::<_, CodecError>(
            EntryPointListsView {
                constructor: legacy_list_of_raw(raw.constructor),
                external: legacy_list_of_raw(raw.external),
                l1_handler: legacy_list_of_raw(raw.l1_handler),
            },
        ),
{
    let lists = legacy_lists(table_of_raw(raw))->Ok_0;
    assert(lists.constructor =~= legacy_list_of_raw(raw.constructor));
    assert(lists.external =~= legacy_list_of_raw(raw.external));
    assert(lists.l1_handler =~= legacy_list_of_raw(raw.l1_handler));
}

/// An artifact without external entry points yields a table that cannot be
/// shown on the wire.
pub proof fn lemma_legacy_entry_points_need_external(raw: EntryPointListsView<RawLegacyEntryPoint>)
    requires
        raw.external.len() == 0,
    ensures
        legacy_lists(table_of_raw(raw)) == Err::<EntryPointListsView<LegacyContractEntryPoint>, _>(
            CodecError::UnsupportedEntryPointKind(EntryPointType::External),
        ),
{
}

} // verus!
