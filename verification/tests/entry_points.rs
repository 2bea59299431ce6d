use state_overlay::entry_points::from_legacy_entry_point;
use state_overlay::entry_points::from_legacy_entry_points_by_type;
use state_overlay::entry_points::to_entry_point;
use state_overlay::entry_points::to_entry_points_by_type;
use state_overlay::entry_points::to_legacy_entry_point;
use state_overlay::entry_points::to_legacy_entry_points_by_type;
use state_overlay::entry_points::EntryPoint;
use state_overlay::entry_points::EntryPointTable;
use state_overlay::entry_points::EntryPointType;
use state_overlay::entry_points::EntryPointV1;
use state_overlay::entry_points::LegacyContractEntryPoint;
use state_overlay::entry_points::LegacyEntrypointOffset;
use state_overlay::entry_points::RawLegacyEntryPoint;
use state_overlay::entry_points::RawLegacyEntryPoints;
use state_overlay::entry_points::SierraEntryPoint;
use state_overlay::error::CodecError;
use state_overlay::felt::Felt;

fn f(n: u64) -> Felt {
    Felt::from_u64(n)
}

#[test]
fn a_legacy_entry_point_keeps_selector_and_offset() {
    let shown = to_legacy_entry_point(EntryPoint { selector: f(11), offset: 10 });
    assert_eq!(shown, LegacyContractEntryPoint { selector: f(11), offset: 10 });
}

#[test]
fn a_compiled_entry_point_takes_the_index_it_is_given() {
    let shown = to_entry_point(EntryPointV1 { selector: f(11), function_idx: 99 }, 3);
    assert_eq!(shown, SierraEntryPoint { selector: f(11), function_idx: 3 });
}

#[test]
fn an_offset_reads_the_same_in_hex_and_in_decimal() {
    let hex = RawLegacyEntryPoint { offset: LegacyEntrypointOffset::U64AsHex(16), selector: f(1) };
    let int = RawLegacyEntryPoint { offset: LegacyEntrypointOffset::U64AsInt(16), selector: f(1) };
    assert_eq!(from_legacy_entry_point(&hex), EntryPoint { selector: f(1), offset: 16 });
    assert_eq!(from_legacy_entry_point(&hex), from_legacy_entry_point(&int));
}

#[test]
fn table_lookup_by_kind() {
    let table = EntryPointTable {
        constructor: None,
        external: Some(vec![EntryPoint { selector: f(1), offset: 2 }]),
        l1_handler: Some(vec![]),
    };
    assert_eq!(table.get(EntryPointType::Constructor), None);
    assert_eq!(table.get(EntryPointType::External), Some(&vec![EntryPoint { selector: f(1), offset: 2 }]));
    assert_eq!(table.get(EntryPointType::L1Handler), Some(&vec![]));
}

#[test]
fn missing_constructor_and_l1_handler_lists_come_out_empty() {
    let table = EntryPointTable {
        constructor: None,
        external: Some(vec![EntryPoint { selector: f(1), offset: 10 }]),
        l1_handler: None,
    };
    let shown = to_legacy_entry_points_by_type(&table).unwrap();
    assert!(shown.constructor.is_empty());
    assert!(shown.l1_handler.is_empty());
    assert_eq!(shown.external, vec![LegacyContractEntryPoint { selector: f(1), offset: 10 }]);
}

#[test]
fn a_missing_external_list_is_an_error_for_a_legacy_class() {
    let table: EntryPointTable<EntryPoint> = EntryPointTable {
        constructor: Some(vec![EntryPoint { selector: f(1), offset: 10 }]),
        external: None,
        l1_handler: Some(vec![]),
    };
    assert_eq!(
        to_legacy_entry_points_by_type(&table),
        Err(CodecError::UnsupportedEntryPointKind(EntryPointType::External))
    );
}

#[test]
fn a_missing_external_list_is_an_error_for_a_compiled_class() {
    let table: EntryPointTable<EntryPointV1> =
        EntryPointTable { constructor: None, external: None, l1_handler: None };
    assert_eq!(
        to_entry_points_by_type(&table),
        Err(CodecError::UnsupportedEntryPointKind(EntryPointType::External))
    );
}

#[test]
fn an_empty_external_list_is_no_error() {
    let table: EntryPointTable<EntryPointV1> =
        EntryPointTable { constructor: None, external: Some(vec![]), l1_handler: None };
    let shown = to_entry_points_by_type(&table).unwrap();
    assert!(shown.external.is_empty());
}

#[test]
fn function_indices_are_positions_whatever_the_input_says() {
    let table = EntryPointTable {
        constructor: Some(vec![EntryPointV1 { selector: f(100), function_idx: 7 }]),
        external: Some(vec![
            EntryPointV1 { selector: f(30), function_idx: 5 },
            EntryPointV1 { selector: f(10), function_idx: 2 },
            EntryPointV1 { selector: f(20), function_idx: 9 },
        ]),
        l1_handler: Some(vec![
            EntryPointV1 { selector: f(40), function_idx: 1 },
            EntryPointV1 { selector: f(50), function_idx: 0 },
        ]),
    };
    let shown = to_entry_points_by_type(&table).unwrap();
    assert_eq!(
        shown.external,
        vec![
            SierraEntryPoint { selector: f(30), function_idx: 0 },
            SierraEntryPoint { selector: f(10), function_idx: 1 },
            SierraEntryPoint { selector: f(20), function_idx: 2 },
        ]
    );
    assert_eq!(shown.constructor, vec![SierraEntryPoint { selector: f(100), function_idx: 0 }]);
    assert_eq!(
        shown.l1_handler,
        vec![
            SierraEntryPoint { selector: f(40), function_idx: 0 },
            SierraEntryPoint { selector: f(50), function_idx: 1 },
        ]
    );
}

#[test]
fn encoding_twice_gives_the_same_indices() {
    let table = EntryPointTable {
        constructor: None,
        external: Some(vec![
            EntryPointV1 { selector: f(30), function_idx: 5 },
            EntryPointV1 { selector: f(10), function_idx: 2 },
        ]),
        l1_handler: None,
    };
    let once = to_entry_points_by_type(&table).unwrap();
    let decoded = EntryPointTable {
        constructor: Some(
            once.constructor.iter().map(|e| EntryPointV1 { selector: e.selector, function_idx: e.function_idx }).collect(),
        ),
        external: Some(
            once.external.iter().map(|e| EntryPointV1 { selector: e.selector, function_idx: e.function_idx }).collect(),
        ),
        l1_handler: Some(
            once.l1_handler.iter().map(|e| EntryPointV1 { selector: e.selector, function_idx: e.function_idx }).collect(),
        ),
    };
    let twice = to_entry_points_by_type(&decoded).unwrap();
    assert_eq!(once, twice);
}

#[test]
fn kinds_without_entry_points_get_no_list() {
    let raw = RawLegacyEntryPoints {
        constructor: vec![],
        external: vec![RawLegacyEntryPoint { offset: LegacyEntrypointOffset::U64AsHex(10), selector: f(1) }],
        l1_handler: vec![],
    };
    let table = from_legacy_entry_points_by_type(&raw);
    assert_eq!(table.constructor, None);
    assert_eq!(table.l1_handler, None);
    assert_eq!(table.external, Some(vec![EntryPoint { selector: f(1), offset: 10 }]));
}

#[test]
fn legacy_entry_points_come_back_unchanged() {
    let raw = RawLegacyEntryPoints {
        constructor: vec![RawLegacyEntryPoint { offset: LegacyEntrypointOffset::U64AsInt(3), selector: f(9) }],
        external: vec![
            RawLegacyEntryPoint { offset: LegacyEntrypointOffset::U64AsHex(10), selector: f(1) },
            RawLegacyEntryPoint { offset: LegacyEntrypointOffset::U64AsInt(20), selector: f(2) },
        ],
        l1_handler: vec![],
    };
    let shown = to_legacy_entry_points_by_type(&from_legacy_entry_points_by_type(&raw)).unwrap();
    assert_eq!(shown.constructor, vec![LegacyContractEntryPoint { selector: f(9), offset: 3 }]);
    assert_eq!(
        shown.external,
        vec![
            LegacyContractEntryPoint { selector: f(1), offset: 10 },
            LegacyContractEntryPoint { selector: f(2), offset: 20 },
        ]
    );
    assert!(shown.l1_handler.is_empty());
}

#[test]
fn an_artifact_without_external_entry_points_cannot_be_shown_again() {
    let raw = RawLegacyEntryPoints {
        constructor: vec![RawLegacyEntryPoint { offset: LegacyEntrypointOffset::U64AsInt(3), selector: f(9) }],
        external: vec![],
        l1_handler: vec![],
    };
    assert_eq!(
        to_legacy_entry_points_by_type(&from_legacy_entry_points_by_type(&raw)),
        Err(CodecError::UnsupportedEntryPointKind(EntryPointType::External))
    );
}
