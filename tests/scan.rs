use sheets_fdw::{
    host_version_requirement, locate_rows, materialize, normalize_record, Json, strip_envelope, Cell, Column, FdwError, Method,
    Operation, ProtocolFault, Record, Session, SourceValue, TargetType,
};

const SAMPLE: &str = ")]}'\n{\"table\":{\"rows\":[{\"c\":[{\"v\":1.0},{\"v\":\"Erlich Bachman\"}]}]}}";

fn col(position: u32, name: &str, kind: TargetType) -> Column {
    Column { position, name: name.to_string(), kind }
}

fn session() -> Session {
    Session::init(None)
}

fn is_integer(c: &Option<Cell>, want: i64) -> bool {
    matches!(c, Some(Cell::Integer(i)) if *i == want)
}

fn is_text(c: &Option<Cell>, want: &str) -> bool {
    matches!(c, Some(Cell::Text(s)) if s == want)
}

#[test]
fn sample_row_then_end() {
    let mut s = session();
    s.begin_scan(SAMPLE).unwrap();
    let cols = vec![col(1, "id", TargetType::Integer), col(2, "name", TargetType::Text)];
    let row = s.next_row(&cols).unwrap().unwrap();
    assert_eq!(row.len(), 2);
    assert!(is_integer(&row[0], 1));
    assert!(is_text(&row[1], "Erlich Bachman"));
    assert!(s.next_row(&cols).unwrap().is_none());
}

#[test]
fn missing_position_is_absent() {
    let mut s = session();
    s.begin_scan(SAMPLE).unwrap();
    let cols = vec![col(3, "age", TargetType::Integer)];
    let row = s.next_row(&cols).unwrap().unwrap();
    assert_eq!(row.len(), 1);
    assert!(row[0].is_none());
}

#[test]
fn re_scan_not_supported_and_state_kept() {
    let mut s = session();
    s.begin_scan(SAMPLE).unwrap();
    assert!(matches!(s.re_scan(), Err(FdwError::NotSupported(Operation::ReScan))));
    assert_eq!(s.record_count(), 1);
    assert_eq!(s.cursor(), 0);
    let fresh = session();
    assert!(matches!(fresh.re_scan(), Err(FdwError::NotSupported(Operation::ReScan))));
    assert_eq!(fresh.record_count(), 0);
}

#[test]
fn missing_prefix_is_protocol_error() {
    let mut s = session();
    let r = s.begin_scan("{\"table\":{\"rows\":[{\"c\":[{\"v\":1.0}]}]}}");
    assert!(matches!(r, Err(FdwError::Protocol(ProtocolFault::MissingPrefix))));
    assert_eq!(s.record_count(), 0);
    assert_eq!(s.cursor(), 0);
}

#[test]
fn missing_prefix_fails_before_parsing() {
    let mut s = session();
    let r = s.begin_scan("not json at all");
    assert!(matches!(r, Err(FdwError::Protocol(ProtocolFault::MissingPrefix))));
    assert!(matches!(strip_envelope(")]}'"), Err(FdwError::Protocol(ProtocolFault::MissingPrefix))));
    assert!(matches!(strip_envelope(""), Err(FdwError::Protocol(ProtocolFault::MissingPrefix))));
}

#[test]
fn strip_envelope_keeps_the_rest() {
    assert_eq!(strip_envelope(")]}'\n{\"a\":1}").unwrap(), "{\"a\":1}");
    assert_eq!(strip_envelope(")]}'\n").unwrap(), "");
}

#[test]
fn malformed_json_is_parse_error() {
    let mut s = session();
    let r = s.begin_scan(")]}'\n{\"table\":");
    assert!(matches!(r, Err(FdwError::Parse(_))));
    assert_eq!(s.record_count(), 0);
}

#[test]
fn missing_rows_is_protocol_error() {
    let mut s = session();
    let r = s.begin_scan(")]}'\n{\"table\":{}}");
    assert!(matches!(r, Err(FdwError::Protocol(ProtocolFault::MissingRecords))));
    let r = s.begin_scan(")]}'\n{\"table\":{\"rows\":{\"c\":[]}}}");
    assert!(matches!(r, Err(FdwError::Protocol(ProtocolFault::MissingRecords))));
}

#[test]
fn record_count_matches_rows_array() {
    let mut s = session();
    s.begin_scan(")]}'\n{\"table\":{\"rows\":[{\"c\":[]},null,{\"c\":[{\"v\":2}]}]}}").unwrap();
    assert_eq!(s.record_count(), 3);
    s.begin_scan(")]}'\n{\"table\":{\"rows\":[]}}").unwrap();
    assert_eq!(s.record_count(), 0);
}

#[test]
fn pulls_stop_at_record_count() {
    let mut s = session();
    s.begin_scan(")]}'\n{\"table\":{\"rows\":[{\"c\":[{\"v\":1}]},{\"c\":[{\"v\":2}]},{\"c\":[{\"v\":3}]}]}}")
        .unwrap();
    let cols = vec![col(1, "n", TargetType::Integer)];
    for want in 1..=3 {
        let row = s.next_row(&cols).unwrap().unwrap();
        assert!(is_integer(&row[0], want));
    }
    for _ in 0..3 {
        assert!(s.next_row(&cols).unwrap().is_none());
        assert_eq!(s.cursor(), 3);
        assert_eq!(s.record_count(), 3);
    }
}

#[test]
fn mismatched_kinds_are_absent() {
    let mut s = session();
    s.begin_scan(")]}'\n{\"table\":{\"rows\":[{\"c\":[{\"v\":\"x\"},{\"v\":7.9},{\"v\":null},null,{\"f\":\"1\"},{\"v\":true}]}]}}")
        .unwrap();
    let cols = vec![
        col(1, "a", TargetType::Integer),
        col(2, "b", TargetType::Text),
        col(3, "c", TargetType::Integer),
        col(4, "d", TargetType::Text),
        col(5, "e", TargetType::Integer),
        col(6, "f", TargetType::Text),
        col(2, "g", TargetType::Integer),
        col(1, "h", TargetType::Text),
    ];
    let row = s.next_row(&cols).unwrap().unwrap();
    assert_eq!(row.len(), 8);
    for c in &row[..6] {
        assert!(c.is_none());
    }
    assert!(is_integer(&row[6], 7));
    assert!(is_text(&row[7], "x"));
}

#[test]
fn numbers_truncate_toward_zero() {
    let mut s = session();
    s.begin_scan(")]}'\n{\"table\":{\"rows\":[{\"c\":[{\"v\":-2.9},{\"v\":1e30},{\"v\":42}]}]}}").unwrap();
    let cols = vec![
        col(1, "a", TargetType::Integer),
        col(2, "b", TargetType::Integer),
        col(3, "c", TargetType::Integer),
    ];
    let row = s.next_row(&cols).unwrap().unwrap();
    assert!(is_integer(&row[0], -2));
    assert!(is_integer(&row[1], i64::MAX));
    assert!(is_integer(&row[2], 42));
}

#[test]
fn unsupported_type_fails_present_or_absent() {
    let mut s = session();
    s.begin_scan(SAMPLE).unwrap();
    let present = vec![col(1, "id", TargetType::Integer), col(2, "flag", TargetType::Boolean)];
    match s.next_row(&present) {
        Err(FdwError::UnsupportedType(name)) => assert_eq!(name, "flag"),
        other => panic!("unexpected: {:?}", other),
    }
    assert_eq!(s.cursor(), 0);
    let absent = vec![col(9, "when", TargetType::Timestamp), col(8, "j", TargetType::Json)];
    match s.next_row(&absent) {
        Err(FdwError::UnsupportedType(name)) => assert_eq!(name, "when"),
        other => panic!("unexpected: {:?}", other),
    }
    assert_eq!(s.cursor(), 0);
    assert!(s.next_row(&vec![col(1, "id", TargetType::Integer)]).unwrap().is_some());
}

#[test]
fn keyed_records_address_by_name() {
    let mut s = session();
    s.begin_scan(")]}'\n{\"table\":{\"rows\":[{\"id\":5,\"name\":\"Dinesh\"},[1,2]]}}").unwrap();
    let cols = vec![
        col(1, "name", TargetType::Text),
        col(2, "id", TargetType::Integer),
        col(3, "missing", TargetType::Text),
    ];
    let row = s.next_row(&cols).unwrap().unwrap();
    assert!(is_text(&row[0], "Dinesh"));
    assert!(is_integer(&row[1], 5));
    assert!(row[2].is_none());
    let row = s.next_row(&cols).unwrap().unwrap();
    assert!(row.iter().all(|c| c.is_none()));
    assert!(s.next_row(&cols).unwrap().is_none());
}

#[test]
fn materialize_keyed_record() {
    let r = Record::Keyed(vec![
        ("a".to_string(), SourceValue::Number(3)),
        ("a".to_string(), SourceValue::Text("later".to_string())),
        ("b".to_string(), SourceValue::Other),
    ]);
    let row = materialize(&r, &vec![col(1, "a", TargetType::Integer), col(2, "b", TargetType::Text)]).unwrap();
    assert!(is_integer(&row[0], 3));
    assert!(row[1].is_none());
    let none = materialize(&r, &vec![]).unwrap();
    assert!(none.is_empty());
}

#[test]
fn position_zero_is_absent() {
    let r = Record::Positional(vec![Some(SourceValue::Number(1))]);
    let row = materialize(&r, &vec![col(0, "z", TargetType::Integer)]).unwrap();
    assert!(row[0].is_none());
}

#[test]
fn end_scan_clears_records_keeps_config() {
    let mut s = Session::init(Some("http://localhost:8080/sheets".to_string()));
    s.begin_scan(SAMPLE).unwrap();
    let cols = vec![col(1, "id", TargetType::Integer)];
    assert!(s.next_row(&cols).unwrap().is_some());
    s.end_scan();
    assert_eq!(s.record_count(), 0);
    assert_eq!(s.cursor(), 0);
    assert_eq!(s.base_url(), "http://localhost:8080/sheets");
    assert!(s.next_row(&cols).unwrap().is_none());
}

#[test]
fn begin_scan_resets_cursor() {
    let mut s = session();
    s.begin_scan(SAMPLE).unwrap();
    let cols = vec![col(1, "id", TargetType::Integer)];
    assert!(s.next_row(&cols).unwrap().is_some());
    assert_eq!(s.cursor(), 1);
    s.begin_scan(SAMPLE).unwrap();
    assert_eq!(s.cursor(), 0);
    assert!(s.next_row(&cols).unwrap().is_some());
}

#[test]
fn default_base_url() {
    assert_eq!(session().base_url(), "https://docs.google.com/spreadsheets/d");
}

#[test]
fn scan_request_builds_export_address() {
    let s = session();
    let req = s.scan_request(Some("1abc")).unwrap();
    assert_eq!(req.method, Method::Get);
    assert_eq!(req.url, "https://docs.google.com/spreadsheets/d/1abc/gviz/tq?tqx=out:json");
    assert_eq!(
        req.headers,
        vec![
            ("user-agent".to_string(), "Sheets FDW".to_string()),
            ("x-datasource-auth".to_string(), "true".to_string()),
        ]
    );
    assert!(req.body.is_empty());
}

#[test]
fn scan_request_needs_sheet_id() {
    match session().scan_request(None) {
        Err(FdwError::Config(key)) => assert_eq!(key, "sheet_id"),
        other => panic!("unexpected: {:?}", other),
    }
}

#[test]
fn writes_not_supported() {
    let s = session();
    assert!(matches!(s.begin_modify(), Err(FdwError::NotSupported(Operation::Modify))));
    let row = vec![Some(Cell::Integer(1))];
    assert!(s.insert(&row).is_ok());
    assert!(s.update(&Cell::Integer(1), &row).is_ok());
    assert!(s.delete(&Cell::Text("k".to_string())).is_ok());
    assert!(s.end_modify().is_ok());
}

#[test]
fn host_version() {
    assert_eq!(host_version_requirement(), "^0.1.0");
}

#[test]
fn error_messages() {
    assert_eq!(
        FdwError::UnsupportedType("flag".to_string()).message(),
        "column flag data type is not supported"
    );
    assert_eq!(
        FdwError::Config("sheet_id".to_string()).message(),
        "required option `sheet_id` is not specified"
    );
    assert_eq!(FdwError::Protocol(ProtocolFault::MissingPrefix).message(), "invalid response");
    assert_eq!(
        FdwError::Protocol(ProtocolFault::MissingRecords).message(),
        "cannot get rows from response"
    );
    assert_eq!(
        FdwError::NotSupported(Operation::ReScan).message(),
        "re_scan on foreign table is not supported"
    );
    assert_eq!(
        FdwError::NotSupported(Operation::Modify).message(),
        "modify on foreign table is not supported"
    );
    assert_eq!(FdwError::Transport("timed out".to_string()).message(), "timed out");
}

#[test]
fn parse_error_carries_parser_message() {
    let mut s = session();
    match s.begin_scan(")]}'\n[1,") {
        Err(FdwError::Parse(msg)) => assert!(!msg.is_empty()),
        other => panic!("unexpected: {:?}", other),
    }
}

#[test]
fn load_rows_buffers_one_record_per_element() {
    let rows = vec![
        Json::Object(vec![(
            "c".to_string(),
            Json::Array(vec![Json::Object(vec![("v".to_string(), Json::Str("a".to_string()))])]),
        )]),
        Json::Object(vec![("k".to_string(), Json::Str("b".to_string()))]),
        Json::Number(Some(7)),
    ];
    let mut s = session();
    s.load_rows(&rows);
    assert_eq!(s.record_count(), 3);
    assert_eq!(s.cursor(), 0);
    let cols = vec![col(1, "k", TargetType::Text)];
    assert!(is_text(&s.next_row(&cols).unwrap().unwrap()[0], "a"));
    assert!(is_text(&s.next_row(&cols).unwrap().unwrap()[0], "b"));
    assert!(s.next_row(&cols).unwrap().unwrap()[0].is_none());
    assert!(s.next_row(&cols).unwrap().is_none());
}

#[test]
fn locate_rows_finds_table_rows() {
    let doc = Json::Object(vec![(
        "table".to_string(),
        Json::Object(vec![("rows".to_string(), Json::Array(vec![Json::Null, Json::Bool(true)]))]),
    )]);
    assert_eq!(locate_rows(&doc).unwrap().len(), 2);
    let flat = Json::Object(vec![("rows".to_string(), Json::Array(vec![]))]);
    assert!(matches!(locate_rows(&flat), Err(FdwError::Protocol(ProtocolFault::MissingRecords))));
    assert!(matches!(locate_rows(&Json::Array(vec![])), Err(FdwError::Protocol(ProtocolFault::MissingRecords))));
}

#[test]
fn normalize_record_picks_addressing() {
    let positional = Json::Object(vec![(
        "c".to_string(),
        Json::Array(vec![
            Json::Null,
            Json::Object(vec![("v".to_string(), Json::Number(Some(4)))]),
            Json::Object(vec![("f".to_string(), Json::Str("4".to_string()))]),
        ]),
    )]);
    match normalize_record(&positional) {
        Record::Positional(cells) => {
            assert_eq!(cells.len(), 3);
            assert!(cells[0].is_none());
            assert!(matches!(cells[1], Some(SourceValue::Number(4))));
            assert!(cells[2].is_none());
        }
        other => panic!("unexpected: {:?}", other),
    }
    let keyed = Json::Object(vec![
        ("c".to_string(), Json::Str("not cells".to_string())),
        ("n".to_string(), Json::Number(None)),
    ]);
    match normalize_record(&keyed) {
        Record::Keyed(ms) => {
            assert_eq!(ms.len(), 2);
            assert!(matches!(&ms[0].1, SourceValue::Text(t) if t == "not cells"));
            assert!(matches!(ms[1].1, SourceValue::Other));
        }
        other => panic!("unexpected: {:?}", other),
    }
    assert!(matches!(normalize_record(&Json::Bool(false)), Record::Keyed(ms) if ms.is_empty()));
}

#[test]
fn parsed_values_reach_the_rows() {
    let mut s = session();
    s.begin_scan(")]}'\n{\"table\":{\"rows\":[{\"b\":[1],\"a\":{\"x\":1},\"n\":-0.5,\"s\":\"t\"}]}}").unwrap();
    let cols = vec![
        col(1, "a", TargetType::Text),
        col(2, "b", TargetType::Integer),
        col(3, "n", TargetType::Integer),
        col(4, "s", TargetType::Text),
    ];
    let row = s.next_row(&cols).unwrap().unwrap();
    assert!(row[0].is_none());
    assert!(row[1].is_none());
    assert!(is_integer(&row[2], 0));
    assert!(is_text(&row[3], "t"));
}
