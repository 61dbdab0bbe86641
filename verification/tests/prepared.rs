use std::sync::Arc;
use tds_rpc::cursor::Fetch;
use tds_rpc::direct::DirectResultSet;
use tds_rpc::error::Error;
use tds_rpc::flags::Flag;
use tds_rpc::options::{CursorConcurrencyOptions, CursorOpenOptions, CursorScrollOptions};
use tds_rpc::outputs::{
    cursor_prep_exec_outcome, prepared_cursor_from_outputs, SQL_SERVER_INFO_EXECUTED_DIRECTLY,
};
use tds_rpc::prepared::{MetadataCall, PreparedCursor};
use tds_rpc::rpc::{Action, RpcProcId, RpcProcIdValue, RpcRequest};
use tds_rpc::types::{
    BufferedResultSet, Column, ColumnData, ColumnType, OutputValue, Row, TokenInfo,
};

fn output(name: &str, value: i32) -> OutputValue {
    output_at(name, 0, value)
}

fn output_at(name: &str, ordinal: u16, value: i32) -> OutputValue {
    OutputValue {
        name: name.to_string(),
        ordinal,
        value: ColumnData::I32(Some(value)),
    }
}

fn info(number: u32) -> TokenInfo {
    TokenInfo {
        number,
        state: 1,
        class: 10,
        message: "Executing SQL directly; no cursor.".to_string(),
        server: "srv".to_string(),
        procedure: "".to_string(),
        line: 1,
    }
}

fn direct_info() -> Vec<TokenInfo> {
    vec![info(SQL_SERVER_INFO_EXECUTED_DIRECTLY)]
}

fn direct_options() -> CursorOpenOptions {
    CursorOpenOptions::new(
        CursorScrollOptions::ForwardOnly,
        CursorConcurrencyOptions::ReadOnly | CursorConcurrencyOptions::AllowDirect,
    )
}

fn column(name: &str) -> Column {
    Column {
        name: name.to_string(),
        column_type: ColumnType::Int4,
    }
}

fn direct_set(result_index: usize, values: &[i32]) -> BufferedResultSet {
    let columns = Arc::new(vec![column("v")]);
    let rows = values
        .iter()
        .map(|&v| Row {
            columns: columns.clone(),
            data: vec![ColumnData::I32(Some(v))],
            result_index,
        })
        .collect();
    BufferedResultSet { columns, rows }
}

fn int_at(row: &Row, index: usize) -> Option<i32> {
    match row.data[index] {
        ColumnData::I32(value) => value,
        ref other => panic!("expected i32, got {:?}", other),
    }
}

fn forward_only() -> i32 {
    CursorScrollOptions::ForwardOnly.bit() as i32
}

fn read_only() -> i32 {
    CursorConcurrencyOptions::ReadOnly.bit() as i32
}

fn text(error: Error) -> String {
    match error {
        Error::Protocol(text) => text.into_owned(),
    }
}

#[test]
fn prepared_cursor_parses_response_order_when_ordinals_mislead() {
    // Deliberately misleading ordinals prove that unnamed SQL Server
    // outputs are interpreted by response order, not ParamOrdinal.
    let outputs = vec![
        output_at("", 0, 11),
        output_at("", 1, 22),
        output_at("", 99, forward_only()),
        output_at("", 2, read_only()),
        output_at("", 5, 3),
    ];

    let pc = prepared_cursor_from_outputs(&outputs, None).unwrap();
    assert_eq!(pc.prepared_handle().as_i32(), 11);
    assert_eq!(pc.cursor_handle().as_i32(), 22);
    assert!(pc
        .scroll_options()
        .contains(CursorScrollOptions::ForwardOnly));
    assert!(pc
        .concurrency_options()
        .contains(CursorConcurrencyOptions::ReadOnly));
    assert_eq!(pc.row_count(), 3);
}

#[test]
fn prepared_cursor_parses_named_outputs() {
    let outputs = vec![
        output("@cursor", 22),
        output("@rowcount", 3),
        output("@prepared_handle", 11),
        output("@ccopt", read_only()),
        output("@scrollopt", forward_only()),
    ];

    let pc = prepared_cursor_from_outputs(&outputs, None).unwrap();
    assert_eq!(pc.prepared_handle().as_i32(), 11);
    assert_eq!(pc.cursor_handle().as_i32(), 22);
    assert_eq!(pc.row_count(), 3);
}

#[test]
fn prepared_cursor_keeps_initial_metadata() {
    let outputs = vec![
        output("", 11),
        output("", 22),
        output("", forward_only()),
        output("", read_only()),
        output("", 3),
    ];
    let metadata = vec![column("v")];

    let pc = prepared_cursor_from_outputs(&outputs, Some(metadata)).unwrap();

    let metadata = pc.metadata().unwrap();
    assert_eq!(metadata.len(), 1);
    assert_eq!(metadata[0].name, "v");
}

#[test]
fn prepared_cursor_takes_the_short_name_of_the_handle() {
    let outputs = vec![output("@cursor", 22), output("@handle", 11)];
    let pc = prepared_cursor_from_outputs(&outputs, None).unwrap();
    assert_eq!(pc.prepared_handle().as_i32(), 11);
    assert_eq!(pc.cursor_handle().as_i32(), 22);

    let both = vec![
        output("@handle", 33),
        output("@cursor", 22),
        output("@prepared_handle", 11),
    ];
    let pc = prepared_cursor_from_outputs(&both, None).unwrap();
    assert_eq!(pc.prepared_handle().as_i32(), 11);
}

#[test]
fn prepared_cursor_refuses_missing_and_zero_handles() {
    let cases = [
        (
            vec![],
            "sp_cursorprepexec: missing @prepared_handle output parameter",
        ),
        (
            vec![output("", 0), output("", 22)],
            "sp_cursorprepexec: server returned a zero @prepared_handle",
        ),
        (
            vec![output("", 11)],
            "sp_cursorprepexec: missing @cursor output parameter",
        ),
        (
            vec![output("", 11), output("", 0)],
            "sp_cursorprepexec: server returned a zero @cursor",
        ),
    ];
    for (outputs, expected) in cases {
        let error = prepared_cursor_from_outputs(&outputs, None).unwrap_err();
        assert_eq!(text(error), expected);
    }
}

#[test]
fn cursor_prep_exec_outcome_returns_cursor_for_nonzero_cursor() {
    let outputs = vec![
        output_at("", 0, 11),
        output_at("", 1, 22),
        output_at("", 77, forward_only()),
        output_at("", 2, read_only()),
        output_at("", 5, 3),
    ];

    let outcome =
        cursor_prep_exec_outcome(&outputs, Vec::new(), &[], CursorOpenOptions::default()).unwrap();
    assert!(!outcome.is_direct());
    assert_eq!(outcome.prepared_handle().as_i32(), 11);

    let cursor = outcome.into_cursor().expect("expected cursor outcome");
    assert_eq!(cursor.prepared_handle().as_i32(), 11);
    assert_eq!(cursor.cursor_handle().as_i32(), 22);
    assert_eq!(cursor.row_count(), 3);
}

#[test]
fn cursor_prep_exec_outcome_returns_direct_for_info_16954_without_cursor_outputs() {
    // The later outputs carry ordinals that would be mistaken for the
    // prepared handle and cursor by an ordinal-driven parser.
    let outputs = vec![
        output_at("", 0, 11),
        output_at("", 1, CursorScrollOptions::Dynamic.bit() as i32),
        output_at("", 2, CursorConcurrencyOptions::OptimisticCc.bit() as i32),
    ];
    let infos = direct_info();

    let outcome = cursor_prep_exec_outcome(
        &outputs,
        vec![direct_set(0, &[1, 2, 3])],
        &infos,
        direct_options(),
    )
    .unwrap();
    assert!(outcome.is_direct());
    assert_eq!(outcome.prepared_handle().as_i32(), 11);

    let direct = outcome.into_direct().expect("expected direct outcome");
    assert_eq!(direct.prepared_handle().as_i32(), 11);
    assert_eq!(direct.row_count(), -1);
    assert!(direct
        .scroll_options()
        .contains(CursorScrollOptions::ForwardOnly));
    assert!(direct
        .concurrency_options()
        .contains(CursorConcurrencyOptions::AllowDirect));
    assert_eq!(direct.results().len(), 1);
    assert_eq!(direct.results()[0].columns().len(), 1);
    assert_eq!(direct.results()[0].columns()[0].name, "v");
    assert_eq!(direct.results()[0].rows().len(), 3);
    assert_eq!(int_at(&direct.results()[0].rows()[0], 0), Some(1));
    assert_eq!(int_at(&direct.results()[0].rows()[2], 0), Some(3));
}

#[test]
fn direct_outcome_takes_named_options() {
    let outputs = vec![
        output("@prepared_handle", 11),
        output("@rowcount", 5),
        output("@scrollopt", 0x0008),
        output("@ccopt", 0x0002),
    ];
    let infos = vec![info(1), info(16954), info(2)];
    let direct = cursor_prep_exec_outcome(&outputs, vec![], &infos, direct_options())
        .unwrap()
        .into_direct()
        .unwrap();
    assert_eq!(direct.scroll_options().bits(), 0x0008);
    assert_eq!(direct.concurrency_options().bits(), 0x0002);
    assert_eq!(direct.row_count(), 5);
    assert!(direct.results().is_empty());
}

#[test]
fn rows_alone_do_not_make_a_direct_outcome() {
    let outputs = vec![output("", 11), output("", 22)];
    let outcome = cursor_prep_exec_outcome(
        &outputs,
        vec![direct_set(0, &[1]), direct_set(1, &[])],
        &[info(16953), info(16955)],
        direct_options(),
    )
    .unwrap();
    let cursor = outcome.into_cursor().unwrap();
    assert_eq!(cursor.metadata().unwrap()[0].name, "v");
    assert_eq!(cursor.row_count(), -1);
    assert!(cursor.scroll_options().is_empty());
}

#[test]
fn into_cursor_preserves_direct_results_on_mismatch() {
    let outputs = vec![output_at("", 0, 11)];
    let infos = direct_info();
    let outcome =
        cursor_prep_exec_outcome(&outputs, vec![direct_set(0, &[7])], &infos, direct_options())
            .unwrap();

    let direct = outcome
        .into_cursor()
        .expect_err("expected intact direct results");
    assert_eq!(direct.prepared_handle().as_i32(), 11);
    assert_eq!(direct.results().len(), 1);
    assert_eq!(int_at(&direct.results()[0].rows()[0], 0), Some(7));
    assert!(direct.leaks_on_drop());
}

#[test]
fn into_direct_preserves_prepared_cursor_on_mismatch() {
    let outputs = vec![output_at("", 0, 11), output_at("", 0, 22)];
    let outcome =
        cursor_prep_exec_outcome(&outputs, Vec::new(), &[], CursorOpenOptions::default()).unwrap();

    let cursor = outcome
        .into_direct()
        .expect_err("expected intact prepared cursor");
    assert_eq!(cursor.prepared_handle().as_i32(), 11);
    assert_eq!(cursor.cursor_handle().as_i32(), 22);
    assert!(cursor.leaks_on_drop());
    assert!(cursor.leaks_cursor_on_drop());
}

#[test]
fn cursor_prep_exec_outcome_preserves_multiple_direct_sets_in_order() {
    let outputs = vec![output_at("", 0, 11)];
    let infos = direct_info();

    let outcome = cursor_prep_exec_outcome(
        &outputs,
        vec![direct_set(0, &[1, 2, 3]), direct_set(1, &[4, 5])],
        &infos,
        direct_options(),
    )
    .unwrap();
    let direct = outcome.into_direct().expect("expected direct outcome");

    assert_eq!(direct.results().len(), 2);
    assert_eq!(direct.results()[0].rows().len(), 3);
    assert_eq!(int_at(&direct.results()[0].rows()[0], 0), Some(1));
    assert_eq!(direct.results()[1].rows().len(), 2);
    assert_eq!(int_at(&direct.results()[1].rows()[0], 0), Some(4));
    assert_eq!(int_at(&direct.results()[1].rows()[1], 0), Some(5));
}

#[test]
fn direct_result_set_into_rows_returns_owned_rows() {
    let columns = Arc::new(vec![column("v")]);
    let rows = vec![Row {
        columns: columns.clone(),
        data: vec![ColumnData::I32(Some(9))],
        result_index: 0,
    }];
    let rs = DirectResultSet::from_buffered(BufferedResultSet { columns, rows });

    assert_eq!(rs.columns().len(), 1);
    assert_eq!(rs.rows().len(), 1);

    let owned = rs.into_rows();
    assert_eq!(owned.len(), 1);
    assert_eq!(int_at(&owned[0], 0), Some(9));
}

#[test]
fn cursor_prep_exec_outcome_errors_on_zero_prepared_handle() {
    let outputs = vec![output("", 0), output("", 0)];
    let err = cursor_prep_exec_outcome(&outputs, Vec::new(), &[], CursorOpenOptions::default())
        .unwrap_err();
    assert!(matches!(err, Error::Protocol(_)));
    assert_eq!(
        text(err),
        "sp_cursorprepexec: server returned a zero @prepared_handle"
    );
}

#[test]
fn cursor_prep_exec_outcome_errors_on_missing_cursor() {
    // A prepared handle but no @cursor anywhere falls through to the normal
    // cursor path, which reports the missing-@cursor protocol error.
    let outputs = vec![output("@prepared_handle", 11)];
    match cursor_prep_exec_outcome(&outputs, Vec::new(), &[], CursorOpenOptions::default())
        .unwrap_err()
    {
        Error::Protocol(msg) => {
            assert!(msg.contains("@cursor"), "unexpected message: {msg}")
        }
    }
}

fn prepared() -> PreparedCursor {
    prepared_cursor_from_outputs(&[output("", 11), output("", 22)], None).unwrap()
}

fn request(action: Action<'static>) -> RpcRequest<'static> {
    match action {
        Action::Send(request) => request,
        other => panic!("expected a request, got {:?}", other),
    }
}

fn proc_and_ints(request: &RpcRequest<'static>) -> (RpcProcId, Vec<i32>) {
    let id = match request.proc {
        RpcProcIdValue::Id(id) => id,
        ref other => panic!("expected a system procedure, got {:?}", other),
    };
    let values = request
        .params
        .iter()
        .map(|p| match p.value {
            ColumnData::I32(Some(v)) => v,
            ref other => panic!("expected i32, got {:?}", other),
        })
        .collect();
    (id, values)
}

#[test]
fn fetch_goes_to_the_cursor() {
    let prepared = prepared();
    let (_, action) = prepared.fetch(Fetch::Next { count: 4 }).unwrap().step(true);
    assert_eq!(
        proc_and_ints(&request(action)),
        (RpcProcId::CursorFetch, vec![22, 2, 0, 4])
    );
}

#[test]
fn metadata_is_known_or_probed_for() {
    match prepared().fetch_metadata().unwrap() {
        MetadataCall::Probe(call) => {
            let (_, action) = call.step(true);
            assert_eq!(
                proc_and_ints(&request(action)),
                (RpcProcId::CursorFetch, vec![22, 2, 0, 0])
            );
        }
        MetadataCall::Known(columns) => panic!("unexpected columns {:?}", columns),
    }
    let known =
        prepared_cursor_from_outputs(&[output("", 11), output("", 22)], Some(vec![column("c")]))
            .unwrap();
    match known.fetch_metadata().unwrap() {
        MetadataCall::Known(columns) => assert_eq!(columns, vec![column("c")]),
        MetadataCall::Probe(call) => panic!("unexpected call {:?}", call),
    }
}

#[test]
fn a_closed_cursor_cannot_be_fetched_from() {
    let mut prepared = prepared();
    assert!(prepared.close_cursor().is_some());
    assert!(!prepared.leaks_cursor_on_drop());
    assert!(prepared.leaks_on_drop());
    assert!(prepared.close_cursor().is_none());
    let expected = "prepared cursor: cursor is already closed";
    assert_eq!(
        text(prepared.fetch(Fetch::First { count: 1 }).unwrap_err()),
        expected
    );
    assert_eq!(text(prepared.fetch_metadata().unwrap_err()), expected);
    assert_eq!(prepared.cursor_handle().as_i32(), 22);
}

#[test]
fn unprepare_closes_the_cursor_first() {
    let (call, action) = prepared().close_and_unprepare().step(true);
    assert_eq!(
        proc_and_ints(&request(action)),
        (RpcProcId::CursorClose, vec![22])
    );
    let (call, action) = call.step(true);
    assert!(matches!(action, Action::Receive));
    assert!(!call.closing().unwrap().leaks_on_drop());
    let (call, action) = call.step(true);
    assert!(matches!(action, Action::Flush));
    assert!(call.closing().is_none());
    let (call, action) = call.step(true);
    assert_eq!(
        proc_and_ints(&request(action)),
        (RpcProcId::CursorUnprepare, vec![11])
    );
    assert!(call.prepared().leaks_on_drop());
    let (call, action) = call.step(true);
    assert!(matches!(action, Action::Receive));
    assert!(!call.prepared().leaks_on_drop());
    let (call, action) = call.step(false);
    assert!(matches!(action, Action::Abort));
    assert!(!call.prepared().leaks_on_drop());
}

#[test]
fn unprepare_stops_where_the_close_fails() {
    let (call, action) = prepared().unprepare().step(true);
    assert!(matches!(action, Action::Send(_)));
    let (call, action) = call.step(true);
    assert!(matches!(action, Action::Receive));
    let (call, action) = call.step(false);
    assert!(matches!(action, Action::Abort));
    let (call, action) = call.step(true);
    assert!(matches!(action, Action::Abort));
    assert!(call.prepared().leaks_on_drop());
}

#[test]
fn unprepare_after_close_sends_one_request() {
    let mut prepared = prepared();
    assert!(prepared.close_cursor().is_some());
    let (call, action) = prepared.unprepare().step(true);
    assert_eq!(
        proc_and_ints(&request(action)),
        (RpcProcId::CursorUnprepare, vec![11])
    );
    let (call, _) = call.step(true);
    let (call, action) = call.step(true);
    assert!(matches!(action, Action::Finish));
    assert!(!call.prepared().leaks_on_drop());
}

#[test]
fn direct_results_are_handed_out_after_the_release() {
    let direct = cursor_prep_exec_outcome(
        &[output("", 11)],
        vec![direct_set(0, &[1, 2]), direct_set(1, &[3])],
        &direct_info(),
        direct_options(),
    )
    .unwrap()
    .into_direct()
    .unwrap();
    let (call, action) = direct.unprepare().step(true);
    assert_eq!(
        proc_and_ints(&request(action)),
        (RpcProcId::Unprepare, vec![11])
    );
    assert!(call.direct().leaks_on_drop());
    let (call, action) = call.step(true);
    assert!(matches!(action, Action::Receive));
    assert!(!call.direct().leaks_on_drop());
    let (call, action) = call.step(true);
    assert!(matches!(action, Action::Finish));
    let results = call.into_results().unwrap();
    assert_eq!(results.len(), 2);
    assert_eq!(results[0].rows().len(), 2);
    assert_eq!(int_at(&results[1].rows()[0], 0), Some(3));
}

#[test]
fn direct_results_are_lost_with_a_failed_release() {
    let direct = cursor_prep_exec_outcome(
        &[output("", 11)],
        vec![direct_set(0, &[1])],
        &direct_info(),
        direct_options(),
    )
    .unwrap()
    .into_direct()
    .unwrap();
    let (call, _) = direct.unprepare().step(true);
    let (call, _) = call.step(true);
    let (call, action) = call.step(false);
    assert!(matches!(action, Action::Abort));
    assert!(!call.direct().leaks_on_drop());
    assert!(call.into_results().is_none());
}
