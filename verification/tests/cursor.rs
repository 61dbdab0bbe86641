use std::borrow::Cow;
use tds_rpc::cursor::{CursorHandle, Fetch};
use tds_rpc::error::Error;
use tds_rpc::flags::Flag;
use tds_rpc::options::{
    flags_to_i32, i32_to_cc_flags, i32_to_flags, i32_to_scroll_flags, CursorConcurrencyOptions,
    CursorOpenOptions, CursorScrollOptions,
};
use tds_rpc::outputs::cursor_from_outputs;
use tds_rpc::params::{
    build_cursorfetch_params, build_cursoropen_params, build_cursorprepexec_params,
    build_unprepare_param,
};
use tds_rpc::rpc::{Action, RpcExchange, RpcProcId, RpcProcIdValue, RpcRequest, RpcStatus};
use tds_rpc::types::{ColumnData, OutputValue, PreparedHandle};

#[test]
fn fetch_encodes_next() {
    assert_eq!(Fetch::Next { count: 10 }.encode(), (0x0002, 0, 10));
}

#[test]
fn fetch_encodes_absolute_with_row() {
    assert_eq!(
        Fetch::Absolute { row: 42, count: 5 }.encode(),
        (0x0010, 42, 5)
    );
}

#[test]
fn fetch_encodes_relative_with_negative_offset() {
    assert_eq!(
        Fetch::Relative {
            offset: -3,
            count: 1
        }
        .encode(),
        (0x0020, -3, 1)
    );
}

#[test]
fn fetch_encodes_refresh_ignores_row_num() {
    assert_eq!(Fetch::Refresh { count: 1 }.encode(), (0x0080, 0, 1));
}

#[test]
fn fetch_encodes_the_other_directions() {
    assert_eq!(Fetch::First { count: 7 }.encode(), (0x0001, 0, 7));
    assert_eq!(Fetch::Prev { count: -1 }.encode(), (0x0004, 0, -1));
    assert_eq!(Fetch::Last { count: i32::MAX }.encode(), (0x0008, 0, i32::MAX));
}

#[test]
fn cursorfetch_params_encode_metadata_probe() {
    let params = build_cursorfetch_params(CursorHandle::from_i32(1234), Fetch::Next { count: 0 });
    let values: Vec<_> = params
        .iter()
        .map(|p| match &p.value {
            ColumnData::I32(Some(v)) => *v,
            other => panic!("expected i32 cursorfetch param, got {:?}", other),
        })
        .collect();

    assert_eq!(values, vec![1234, 0x0002, 0, 0]);
}

#[test]
fn open_options_combine_scroll_flags() {
    let opts = CursorOpenOptions::new(
        CursorScrollOptions::ParameterizedStmt | CursorScrollOptions::ForwardOnly,
        CursorConcurrencyOptions::ReadOnly,
    );
    let bits = opts.scroll().bits();
    assert!(bits & CursorScrollOptions::ParameterizedStmt.bit() != 0);
    assert!(bits & CursorScrollOptions::ForwardOnly.bit() != 0);
}

#[test]
fn default_options_are_forward_only_readonly() {
    let opts = CursorOpenOptions::default();
    assert!(opts.scroll().contains(CursorScrollOptions::ForwardOnly));
    assert!(opts
        .concurrency()
        .contains(CursorConcurrencyOptions::ReadOnly));
}

#[test]
fn default_options_are_nothing_else() {
    let opts = CursorOpenOptions::default();
    assert_eq!(opts.scroll().bits(), 0x0004);
    assert_eq!(opts.concurrency().bits(), 0x0001);
    let same = CursorOpenOptions::forward_only_read_only();
    assert_eq!(same.scroll(), opts.scroll());
    assert_eq!(same.concurrency(), opts.concurrency());
}

#[test]
fn i32_round_trip_through_scroll_flags() {
    // Unknown bits are truncated (don't round-trip) — that's by design:
    // we don't want to panic on a server that sends proprietary bits.
    let flags = i32_to_scroll_flags(0x0004);
    assert!(flags.contains(CursorScrollOptions::ForwardOnly));
}

#[test]
fn unknown_option_bits_are_dropped() {
    assert_eq!(i32_to_scroll_flags(-1).bits(), 0xF81F);
    assert_eq!(i32_to_cc_flags(-1).bits(), 0x600F);
    assert!(i32_to_scroll_flags(0x0020).is_empty());
    assert_eq!(i32_to_cc_flags(0x1000 | 0x2000).bits(), 0x2000);
}

#[test]
fn option_flags_have_their_wire_bits() {
    let scroll = [
        (CursorScrollOptions::Keyset, 0x0001),
        (CursorScrollOptions::Dynamic, 0x0002),
        (CursorScrollOptions::ForwardOnly, 0x0004),
        (CursorScrollOptions::Static, 0x0008),
        (CursorScrollOptions::Fast, 0x0010),
        (CursorScrollOptions::ParameterizedStmt, 0x1000),
        (CursorScrollOptions::AutoFetch, 0x2000),
        (CursorScrollOptions::AutoClose, 0x4000),
        (CursorScrollOptions::CheckAcceptedTypes, 0x8000),
        (CursorScrollOptions::KeysetDrivenPlusParams, 0x0800),
    ];
    for (flag, bit) in scroll {
        assert_eq!(flag.bit(), bit);
        assert!(i32_to_scroll_flags(bit as i32).contains(flag));
    }
    let concurrency = [
        (CursorConcurrencyOptions::ReadOnly, 0x0001),
        (CursorConcurrencyOptions::ScrollLocks, 0x0002),
        (CursorConcurrencyOptions::OptimisticCc, 0x0004),
        (CursorConcurrencyOptions::OptimisticCcVal, 0x0008),
        (CursorConcurrencyOptions::AllowDirect, 0x2000),
        (CursorConcurrencyOptions::UpdateInPlace, 0x4000),
    ];
    for (flag, bit) in concurrency {
        assert_eq!(flag.bit(), bit);
        assert!(i32_to_cc_flags(bit as i32).contains(flag));
    }
}

#[test]
fn option_sets_survive_the_wire() {
    let set = CursorScrollOptions::CheckAcceptedTypes
        | CursorScrollOptions::Fast
        | CursorScrollOptions::Keyset;
    let back = i32_to_scroll_flags(flags_to_i32(set.bits()));
    assert_eq!(back, set);
    assert!(!back.contains(CursorScrollOptions::Static));
    assert_eq!(set.bits(), 0x8011);
    let more = set | (CursorScrollOptions::Static | CursorScrollOptions::Fast);
    assert_eq!(more.bits(), 0x8019);
}

#[test]
fn words_and_signed_integers_are_the_same_bits() {
    assert_eq!(flags_to_i32(0x8000_0000), i32::MIN);
    assert_eq!(flags_to_i32(0x7FFF_FFFF), i32::MAX);
    assert_eq!(i32_to_flags(-1), 0xFFFF_FFFF);
    assert_eq!(i32_to_flags(flags_to_i32(0xDEAD_BEEF)), 0xDEAD_BEEF);
}

#[test]
fn cursor_handle_is_its_wire_value() {
    let handle = CursorHandle::from_i32(-5);
    assert_eq!(handle.as_i32(), -5);
    assert_eq!(i32::from(handle), -5);
}

#[test]
fn cursorprepexec_params_match_trace_order_and_outputs() {
    let params = build_cursorprepexec_params(
        Cow::Borrowed("SELECT @P1"),
        CursorOpenOptions::default(),
        Cow::Borrowed("@P1 int"),
        vec![ColumnData::I32(Some(42))],
    );

    assert_eq!(params.len(), 8);
    assert!(params[0].flags.contains(RpcStatus::ByRefValue));
    assert!(params[1].flags.contains(RpcStatus::ByRefValue));
    assert!(matches!(params[2].value, ColumnData::String(Some(ref s)) if s == "@P1 int"));
    assert!(matches!(params[3].value, ColumnData::String(Some(ref s)) if s == "SELECT @P1"));
    assert!(params[4].flags.contains(RpcStatus::ByRefValue));
    assert!(params[5].flags.contains(RpcStatus::ByRefValue));
    assert!(params[6].flags.contains(RpcStatus::ByRefValue));
    assert_eq!(params[7].name, "@P1");
}

#[test]
fn cursorprepexec_params_encode_parameterized_stmt_scroll_option() {
    let params = build_cursorprepexec_params(
        Cow::Borrowed("SELECT @P1"),
        CursorOpenOptions::new(
            CursorScrollOptions::ParameterizedStmt | CursorScrollOptions::ForwardOnly,
            CursorConcurrencyOptions::ReadOnly,
        ),
        Cow::Borrowed("@P1 int"),
        vec![ColumnData::I32(Some(42))],
    );

    assert!(matches!(
        params[4].value,
        ColumnData::I32(Some(v))
            if v == (CursorScrollOptions::ParameterizedStmt.bit() as i32
                | CursorScrollOptions::ForwardOnly.bit() as i32)
    ));
}

#[test]
fn cursorprepexec_sends_null_param_defs_slot() {
    let params = build_cursorprepexec_params(
        Cow::Borrowed("SELECT 1"),
        CursorOpenOptions::default(),
        Cow::Borrowed(""),
        vec![],
    );
    assert!(matches!(params[2].value, ColumnData::String(None)));
}

#[test]
fn cursorprepexec_binds_values_even_without_definitions() {
    let params = build_cursorprepexec_params(
        Cow::Owned("SELECT 1".to_string()),
        CursorOpenOptions::default(),
        Cow::Owned(String::new()),
        vec![ColumnData::I32(Some(1)), ColumnData::I32(None)],
    );
    assert_eq!(params.len(), 9);
    assert!(matches!(params[2].value, ColumnData::String(None)));
    assert_eq!(params[7].name, "@P1");
    assert_eq!(params[8].name, "@P2");
    assert!(matches!(params[8].value, ColumnData::I32(None)));
    assert!(params[7].flags.is_empty());
    assert_eq!(params[7].type_info, None);
}

#[test]
fn cursoropen_params_are_in_order() {
    let values: Vec<ColumnData<'static>> = (0..12).map(|v| ColumnData::I32(Some(v))).collect();
    let params = build_cursoropen_params(
        Cow::Borrowed("SELECT @P1"),
        CursorOpenOptions::new(
            CursorScrollOptions::Static,
            CursorConcurrencyOptions::ScrollLocks,
        ),
        Cow::Borrowed("@P1 int"),
        values,
    );
    assert_eq!(params.len(), 18);
    let by_ref: Vec<bool> = params
        .iter()
        .map(|p| p.flags.contains(RpcStatus::ByRefValue))
        .collect();
    assert_eq!(by_ref[..6], [true, false, true, true, true, false]);
    assert!(by_ref[6..].iter().all(|b| !b));
    assert!(matches!(params[0].value, ColumnData::I32(Some(0))));
    assert!(matches!(params[1].value, ColumnData::String(Some(ref s)) if s == "SELECT @P1"));
    assert!(matches!(params[2].value, ColumnData::I32(Some(0x0008))));
    assert!(matches!(params[3].value, ColumnData::I32(Some(0x0002))));
    assert!(matches!(params[4].value, ColumnData::I32(Some(0))));
    assert!(matches!(params[5].value, ColumnData::String(Some(ref s)) if s == "@P1 int"));
    assert!(params[..6].iter().all(|p| p.name == ""));
    assert_eq!(params[6].name, "@P1");
    assert_eq!(params[14].name, "@P9");
    assert_eq!(params[15].name, "@P10");
    assert_eq!(params[17].name, "@P12");
    assert!(matches!(params[17].value, ColumnData::I32(Some(11))));
}

#[test]
fn cursoropen_sends_nothing_for_a_statement_without_parameters() {
    let params = build_cursoropen_params(
        Cow::Borrowed("SELECT 1"),
        CursorOpenOptions::default(),
        Cow::Borrowed(""),
        vec![ColumnData::I32(Some(1))],
    );
    assert_eq!(params.len(), 5);
}

#[test]
fn unprepare_param_contains_prepared_handle() {
    let param = build_unprepare_param(PreparedHandle::from_i32(77));
    assert_eq!(param.name, "");
    assert!(param.flags.is_empty());
    assert!(matches!(param.value, ColumnData::I32(Some(77))));
}

fn output(name: &str, value: ColumnData<'static>) -> OutputValue {
    OutputValue {
        name: name.to_string(),
        ordinal: 0,
        value,
    }
}

fn integer(value: i32) -> ColumnData<'static> {
    ColumnData::I32(Some(value))
}

#[test]
fn cursor_is_read_from_unnamed_outputs() {
    let cursor = cursor_from_outputs(&[
        output("", integer(180150003)),
        output("", integer(0x1_0004)),
        output("", integer(0x0001)),
        output("", integer(12)),
    ])
    .unwrap();
    assert_eq!(cursor.handle().as_i32(), 180150003);
    assert_eq!(cursor.scroll_options().bits(), 0x0004);
    assert_eq!(cursor.concurrency_options().bits(), 0x0001);
    assert_eq!(cursor.row_count(), 12);
    assert!(cursor.leaks_on_drop());
}

#[test]
fn cursor_has_defaults_for_what_is_missing() {
    let cursor = cursor_from_outputs(&[output("cursor", integer(0))]).unwrap();
    assert_eq!(cursor.handle().as_i32(), 0);
    assert!(cursor.scroll_options().is_empty());
    assert!(cursor.concurrency_options().is_empty());
    assert_eq!(cursor.row_count(), -1);
}

#[test]
fn cursor_outputs_with_names_count_anywhere() {
    let cursor = cursor_from_outputs(&[
        output("@rowcount", integer(3)),
        output("@ccopt", integer(0x0002)),
        output("@cursor", integer(9)),
        output("@scrollopt", integer(0x0008)),
    ])
    .unwrap();
    assert_eq!(cursor.handle().as_i32(), 9);
    assert_eq!(cursor.scroll_options().bits(), 0x0008);
    assert_eq!(cursor.concurrency_options().bits(), 0x0002);
    assert_eq!(cursor.row_count(), 3);
}

#[test]
fn a_name_without_an_integer_falls_back_to_the_place() {
    let cursor = cursor_from_outputs(&[
        output("", integer(5)),
        output("cursor", ColumnData::I32(None)),
        output("cursor", integer(6)),
    ])
    .unwrap();
    assert_eq!(cursor.handle().as_i32(), 5);
}

#[test]
fn cursor_is_missing() {
    for outputs in [
        vec![],
        vec![output("", ColumnData::I32(None))],
        vec![output("", ColumnData::String(Some(Cow::Borrowed("7"))))],
    ] {
        match cursor_from_outputs(&outputs) {
            Err(Error::Protocol(text)) => assert_eq!(
                text,
                "sp_cursoropen: missing @cursor output parameter in server response"
            ),
            Ok(cursor) => panic!("unexpected cursor {:?}", cursor),
        }
    }
}

fn open_cursor(handle: i32) -> tds_rpc::cursor::Cursor {
    cursor_from_outputs(&[output("", integer(handle))]).unwrap()
}

fn ints(request: &RpcRequest<'static>) -> Vec<i32> {
    request
        .params
        .iter()
        .map(|p| match p.value {
            ColumnData::I32(Some(v)) => v,
            ref other => panic!("expected i32, got {:?}", other),
        })
        .collect()
}

#[test]
fn fetch_flushes_sends_and_receives() {
    let cursor = open_cursor(31);
    let call = cursor.fetch(Fetch::Absolute { row: 8, count: 2 });
    let (call, action) = call.step(true);
    match action {
        Action::Send(request) => {
            assert!(matches!(
                request.proc,
                RpcProcIdValue::Id(RpcProcId::CursorFetch)
            ));
            assert_eq!(ints(&request), vec![31, 0x0010, 8, 2]);
        }
        other => panic!("expected a request, got {:?}", other),
    }
    let (call, action) = call.step(true);
    assert!(matches!(action, Action::Receive));
    let (call, action) = call.step(true);
    assert!(matches!(action, Action::Finish));
    assert!(call.is_done());
    let (call, action) = call.step(false);
    assert!(matches!(action, Action::Finish));
    assert!(call.is_done());
}

#[test]
fn a_failure_ends_a_call() {
    let request = RpcRequest {
        proc: RpcProcIdValue::Name(Cow::Borrowed("p")),
        params: vec![],
    };
    let (call, action) = RpcExchange::start(request).step(false);
    assert!(matches!(action, Action::Abort));
    let (call, action) = call.step(true);
    assert!(matches!(action, Action::Abort));
    assert!(!call.is_done());
    assert!(!call.is_sending());
}

#[test]
fn close_counts_from_the_moment_the_request_is_out() {
    let (call, action) = open_cursor(31).close().step(true);
    match action {
        Action::Send(request) => {
            assert!(matches!(
                request.proc,
                RpcProcIdValue::Id(RpcProcId::CursorClose)
            ));
            assert_eq!(ints(&request), vec![31]);
        }
        other => panic!("expected a request, got {:?}", other),
    }
    assert!(call.cursor().leaks_on_drop());
    let (call, action) = call.step(true);
    assert!(matches!(action, Action::Receive));
    assert!(!call.cursor().leaks_on_drop());
    let (call, action) = call.step(false);
    assert!(matches!(action, Action::Abort));
    assert!(!call.cursor().leaks_on_drop());
}

#[test]
fn close_that_never_went_out_leaks() {
    let (call, action) = open_cursor(31).close().step(true);
    assert!(matches!(action, Action::Send(_)));
    let (call, action) = call.step(false);
    assert!(matches!(action, Action::Abort));
    assert!(call.cursor().leaks_on_drop());
    assert_eq!(call.cursor().handle().as_i32(), 31);
}
