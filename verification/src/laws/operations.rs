//! Laws of the operations from end to end: from what a caller hands in to what
//! the connection is asked to send, and from what the server sent to what a
//! caller reads.
use crate::cancellation::{CancelPoll, CancelSignal, CancellationToken};
use crate::cursor::{CloseCall, Cursor, CursorHandle, Fetch};
use crate::direct::{
    direct_result_sets, CursorPrepExecOutcome, DirectResultSet, DirectResults, DirectUnprepareCall,
};
use crate::error::Error;
use crate::flags::{Flag, FlagSet, IntoFlags};
use crate::laws::calls::{
    law_close_call, law_direct_unprepare_call, law_fetch_call, law_procedure_call_sends,
    law_unprepare_call_with_cursor, law_unprepare_call_without_cursor, sends_integer,
};
use crate::laws::requests::{
    is_bound, is_integer, is_options, is_unnamed, law_cursoropen_sends, law_cursorprepexec_sends,
    law_fetch_sends, law_procedure_call, law_procedure_parameter, law_unprepare_parameter,
};
use crate::laws::responses::{
    are_unnamed_integers, has_named_options, has_told_options, holds, is_concurrency_of,
    is_scroll_of, is_silent, is_silent_on_handle, law_cursor_of_a_response,
    law_five_unnamed_outputs, law_four_unnamed_outputs, law_outcome_of_a_response,
    law_prepared_cursor_of_a_response, law_result_sets_are_kept, says_direct, tells, tells_handle,
    tells_or,
};
use crate::laws::values::{
    law_concurrency_flags_of_an_integer, law_outputs_and_names, law_scroll_flags_of_an_integer,
    law_signed_integers_are_the_same_bits, same_bits,
};
use crate::options::{
    flags_to_i32, i32_to_cc_flags, i32_to_flags, i32_to_scroll_flags, CursorConcurrencyOptions,
    CursorOpenOptions, CursorScrollOptions,
};
use crate::outputs::{
    cursor_from_outputs, cursor_prep_exec_outcome, prepared_cursor_from_outputs,
};
use crate::params::{
    build_cursorfetch_params, build_cursoropen_params, build_cursorprepexec_params,
    build_unprepare_param,
};
use crate::prepared::{MetadataCall, PreparedCursor, UnprepareCall};
use crate::procedure::{
    call_procedure, ParameterDirection, ProcedureParameter, ProcedureResult,
};
use crate::rpc::{Action, RpcExchange, RpcParam, RpcProcId, RpcProcIdValue, RpcStatus};
use crate::text::IntoText;
use crate::types::{
    BufferedResultSet, Column, ColumnData, OutputValue, PreparedHandle, Row, TokenInfo, TypeInfo,
};
use std::borrow::Cow;
use std::task::Context;
use vstd::prelude::*;

verus! {

/// The parameters of a fetch are the handle, the code of the direction, the row
/// number or offset where the fetch has one and zero where it has none, and the
/// number of rows.
pub proof fn law_building_a_fetch(
    handle: CursorHandle,
    raw: i32,
    fetch: Fetch,
    params: Vec<RpcParam<'static>>,
)
    requires
        call_ensures(CursorHandle::as_i32, (handle,), raw),
        call_ensures(build_cursorfetch_params, (handle, fetch), params),
    ensures
        params@.len() == 4,
        is_integer(params@[0], false, raw),
        ({
            let (code, row, count) = match fetch {
                Fetch::First { count } => (1i32, 0i32, count),
                Fetch::Next { count } => (2i32, 0i32, count),
                Fetch::Prev { count } => (4i32, 0i32, count),
                Fetch::Last { count } => (8i32, 0i32, count),
                Fetch::Absolute { row, count } => (16i32, row, count),
                Fetch::Relative { offset, count } => (32i32, offset, count),
                Fetch::Refresh { count } => (128i32, 0i32, count),
            };
            &&& is_integer(params@[1], false, code)
            &&& is_integer(params@[2], false, row)
            &&& is_integer(params@[3], false, count)
        }),
{
    law_fetch_sends(handle, fetch, params@);
}

/// Fetching from a cursor sends the handle that the cursor shows, and the three
/// numbers of the fetch.
pub proof fn law_fetch_from_a_cursor(
    cursor: &Cursor,
    fetch: Fetch,
    shown: CursorHandle,
    handle: i32,
    numbers: (i32, i32, i32),
    call: RpcExchange<'static>,
    next: (RpcExchange<'static>, Action<'static>),
)
    requires
        call_ensures(Cursor::handle, (cursor,), shown),
        call_ensures(CursorHandle::as_i32, (shown,), handle),
        call_ensures(Fetch::encode, (fetch,), numbers),
        call_ensures(Cursor::fetch, (cursor, fetch), call),
        call_ensures(RpcExchange::<'static>::step, (call, true), next),
    ensures
        next.1 matches Action::Send(request) && {
            &&& request.proc == RpcProcIdValue::<'static>::Id(RpcProcId::CursorFetch)
            &&& request.params@.len() == 4
            &&& is_integer(request.params@[0], false, handle)
            &&& is_integer(request.params@[1], false, numbers.0)
            &&& is_integer(request.params@[2], false, numbers.1)
            &&& is_integer(request.params@[3], false, numbers.2)
        },
{
    law_fetch_call(cursor@.handle, fetch, next.1);
}

/// Fetching from a prepared cursor goes to the cursor whose handle it shows.
pub proof fn law_fetch_from_a_prepared_cursor(
    prepared: &PreparedCursor,
    fetch: Fetch,
    shown: CursorHandle,
    handle: i32,
    numbers: (i32, i32, i32),
    has_cursor: bool,
    result: Result<RpcExchange<'static>, Error>,
)
    requires
        call_ensures(PreparedCursor::cursor_handle, (prepared,), shown),
        call_ensures(CursorHandle::as_i32, (shown,), handle),
        call_ensures(Fetch::encode, (fetch,), numbers),
        call_ensures(PreparedCursor::leaks_cursor_on_drop, (prepared,), has_cursor),
        call_ensures(PreparedCursor::fetch, (prepared, fetch), result),
    ensures
        result is Ok <==> has_cursor,
        result matches Err(error) ==> error is Protocol && error.text()
            == "prepared cursor: cursor is already closed"@,
        result matches Ok(call) ==> forall|next: (RpcExchange<'static>, Action<'static>)| #[trigger]
            call_ensures(RpcExchange::<'static>::step, (call, true), next) ==> sends_fetch(
                next.1,
                handle,
                numbers,
            ),
{
    if let Ok(call) = result {
        assert forall|next: (RpcExchange<'static>, Action<'static>)| #[trigger]
            call_ensures(RpcExchange::<'static>::step, (call, true), next) implies sends_fetch(
            next.1,
            handle,
            numbers,
        ) by {
            law_fetch_call(shown, fetch, next.1);
        }
    }
}

/// The action is to send a fetch of the given numbers from the cursor with the
/// given handle.
pub open spec fn sends_fetch(
    action: Action<'static>,
    handle: i32,
    numbers: (i32, i32, i32),
) -> bool {
    match action {
        Action::Send(request) => {
            &&& request.proc == RpcProcIdValue::<'static>::Id(RpcProcId::CursorFetch)
            &&& request.params@.len() == 4
            &&& is_integer(request.params@[0], false, handle)
            &&& is_integer(request.params@[1], false, numbers.0)
            &&& is_integer(request.params@[2], false, numbers.1)
            &&& is_integer(request.params@[3], false, numbers.2)
        },
        _ => false,
    }
}

/// The columns of a prepared cursor are those that it was opened with, or are
/// asked for by a fetch of no rows from its cursor.
pub proof fn law_metadata_of_a_prepared_cursor(
    prepared: &PreparedCursor,
    shown: CursorHandle,
    handle: i32,
    has_cursor: bool,
    known: Option<&Vec<Column>>,
    result: Result<MetadataCall, Error>,
)
    requires
        call_ensures(PreparedCursor::cursor_handle, (prepared,), shown),
        call_ensures(CursorHandle::as_i32, (shown,), handle),
        call_ensures(PreparedCursor::leaks_cursor_on_drop, (prepared,), has_cursor),
        call_ensures(PreparedCursor::metadata, (prepared,), known),
        call_ensures(PreparedCursor::fetch_metadata, (prepared,), result),
    ensures
        result is Ok <==> has_cursor,
        result matches Err(error) ==> error is Protocol && error.text()
            == "prepared cursor: cursor is already closed"@,
        result matches Ok(call) ==> (call is Known <==> known is Some),
        result matches Ok(MetadataCall::Known(columns)) ==> columns@ == known->0@,
        result matches Ok(MetadataCall::Probe(call)) ==> forall|
            next: (RpcExchange<'static>, Action<'static>),
        | #[trigger]
            call_ensures(RpcExchange::<'static>::step, (call, true), next) ==> sends_fetch(
                next.1,
                handle,
                (2, 0, 0),
            ),
{
    if let Ok(MetadataCall::Probe(call)) = result {
        assert forall|next: (RpcExchange<'static>, Action<'static>)| #[trigger]
            call_ensures(RpcExchange::<'static>::step, (call, true), next) implies sends_fetch(
            next.1,
            handle,
            (2, 0, 0),
        ) by {
            law_fetch_call(shown, Fetch::Next { count: 0 }, next.1);
        }
    }
}

/// Closing a cursor sends `sp_cursorclose` with the handle that the cursor
/// shows, and nothing else. The cursor leaks until that is out.
pub proof fn law_closing_a_cursor(
    cursor: Cursor,
    shown: CursorHandle,
    handle: i32,
    leaks: bool,
    call: CloseCall,
    sending: (CloseCall, Action<'static>),
    sent: (CloseCall, Action<'static>),
    before: &Cursor,
    after: &Cursor,
    leaks_before: bool,
    leaks_after: bool,
)
    requires
        call_ensures(Cursor::handle, (&cursor,), shown),
        call_ensures(CursorHandle::as_i32, (shown,), handle),
        call_ensures(Cursor::leaks_on_drop, (&cursor,), leaks),
        call_ensures(Cursor::close, (cursor,), call),
        call_ensures(CloseCall::step, (call, true), sending),
        call_ensures(CloseCall::step, (sending.0, true), sent),
        call_ensures(CloseCall::cursor, (&sending.0,), before),
        call_ensures(CloseCall::cursor, (&sent.0,), after),
        call_ensures(Cursor::leaks_on_drop, (before,), leaks_before),
        call_ensures(Cursor::leaks_on_drop, (after,), leaks_after),
    ensures
        sends_integer(sending.1, RpcProcId::CursorClose, handle),
        sent.1 is Receive,
        leaks_before == leaks,
        !leaks_after,
        before@ == cursor@,
        after@.handle == cursor@.handle,
{
    law_close_call(cursor@, sending.1, true);
}

/// The parameters that open a cursor have the statement, the words of the
/// requested options, the definitions and the bound values as they are.
pub proof fn law_building_an_open<'a>(
    sql: Cow<'a, str>,
    options: CursorOpenOptions,
    param_defs: Cow<'a, str>,
    values: Vec<ColumnData<'a>>,
    params: Vec<RpcParam<'a>>,
    scroll: FlagSet<CursorScrollOptions>,
    concurrency: FlagSet<CursorConcurrencyOptions>,
    scroll_word: u32,
    concurrency_word: u32,
)
    requires
        call_ensures(CursorOpenOptions::scroll, (&options,), scroll),
        call_ensures(CursorOpenOptions::concurrency, (&options,), concurrency),
        call_ensures(FlagSet::<CursorScrollOptions>::bits, (&scroll,), scroll_word),
        call_ensures(FlagSet::<CursorConcurrencyOptions>::bits, (&concurrency,), concurrency_word),
        call_ensures(build_cursoropen_params, (sql, options, param_defs, values), params),
    ensures
        params@.len() == if param_defs@.len() == 0 {
            5
        } else {
            6 + values@.len()
        },
        is_integer(params@[0], true, 0),
        is_unnamed(params@[1], false, ColumnData::String(Some(sql))),
        is_options(params@[2], scroll_word),
        is_options(params@[3], concurrency_word),
        is_integer(params@[4], true, 0),
        param_defs@.len() > 0 ==> is_unnamed(
            params@[5],
            false,
            ColumnData::String(Some(param_defs)),
        ),
        param_defs@.len() > 0 ==> forall|i: int|
            0 <= i < values@.len() ==> is_bound(#[trigger] params@[6 + i], i, values@[i]),
{
    law_cursoropen_sends(sql, options, param_defs, values@, params@);
}

/// The parameters that prepare and open a cursor have the definitions or
/// `NULL`, the statement, the words of the requested options and the bound
/// values as they are.
pub proof fn law_building_a_prepexec<'a>(
    sql: Cow<'a, str>,
    options: CursorOpenOptions,
    param_defs: Cow<'a, str>,
    values: Vec<ColumnData<'a>>,
    params: Vec<RpcParam<'a>>,
    scroll: FlagSet<CursorScrollOptions>,
    concurrency: FlagSet<CursorConcurrencyOptions>,
    scroll_word: u32,
    concurrency_word: u32,
)
    requires
        call_ensures(CursorOpenOptions::scroll, (&options,), scroll),
        call_ensures(CursorOpenOptions::concurrency, (&options,), concurrency),
        call_ensures(FlagSet::<CursorScrollOptions>::bits, (&scroll,), scroll_word),
        call_ensures(FlagSet::<CursorConcurrencyOptions>::bits, (&concurrency,), concurrency_word),
        call_ensures(build_cursorprepexec_params, (sql, options, param_defs, values), params),
    ensures
        params@.len() == 7 + values@.len(),
        is_integer(params@[0], true, 0),
        is_integer(params@[1], true, 0),
        param_defs@.len() == 0 ==> is_unnamed(params@[2], false, ColumnData::String(None)),
        param_defs@.len() > 0 ==> is_unnamed(
            params@[2],
            false,
            ColumnData::String(Some(param_defs)),
        ),
        is_unnamed(params@[3], false, ColumnData::String(Some(sql))),
        is_options(params@[4], scroll_word),
        is_options(params@[5], concurrency_word),
        is_integer(params@[6], true, 0),
        forall|i: int| 0 <= i < values@.len() ==> is_bound(#[trigger] params@[7 + i], i, values@[i]),
{
    law_cursorprepexec_sends(sql, options, param_defs, values@, params@);
}

/// The parameter that releases a statement is its handle.
pub proof fn law_building_a_release(handle: PreparedHandle, raw: i32, param: RpcParam<'static>)
    requires
        call_ensures(PreparedHandle::as_i32, (handle,), raw),
        call_ensures(build_unprepare_param, (handle,), param),
    ensures
        is_integer(param, false, raw),
{
    law_unprepare_parameter(handle, param);
}

/// A cursor that was read from a response shows the handle, options and row
/// count of that response, and is open.
pub proof fn law_reading_a_cursor(
    outputs: &[OutputValue],
    cursor: Cursor,
    shown: CursorHandle,
    handle: i32,
    scroll: FlagSet<CursorScrollOptions>,
    concurrency: FlagSet<CursorConcurrencyOptions>,
    row_count: i32,
    leaks: bool,
)
    requires
        call_ensures(cursor_from_outputs, (outputs,), Ok::<Cursor, Error>(cursor)),
        call_ensures(Cursor::handle, (&cursor,), shown),
        call_ensures(CursorHandle::as_i32, (shown,), handle),
        call_ensures(Cursor::scroll_options, (&cursor,), scroll),
        call_ensures(Cursor::concurrency_options, (&cursor,), concurrency),
        call_ensures(Cursor::row_count, (&cursor,), row_count),
        call_ensures(Cursor::leaks_on_drop, (&cursor,), leaks),
    ensures
        tells(outputs@, "cursor"@, 0, handle),
        exists|s: i32| #[trigger]
            tells_or(outputs@, "scrollopt"@, 1, 0, s) && is_scroll_of(scroll, s),
        exists|k: i32| #[trigger]
            tells_or(outputs@, "ccopt"@, 2, 0, k) && is_concurrency_of(concurrency, k),
        tells_or(outputs@, "rowcount"@, 3, -1i32, row_count),
        leaks,
{
    law_cursor_of_a_response(outputs@, Ok(cursor));
}

/// Four unnamed integers are shown as the handle, the options and the row count
/// of a cursor. An empty response opens no cursor.
pub proof fn law_reading_four_outputs(
    outputs: &[OutputValue],
    c: i32,
    s: i32,
    k: i32,
    n: i32,
    result: Result<Cursor, Error>,
)
    requires
        are_unnamed_integers(outputs@, seq![c, s, k, n]),
        call_ensures(cursor_from_outputs, (outputs,), result),
    ensures
        result matches Ok(cursor) && {
            &&& cursor@.handle.spec_i32() == c
            &&& is_scroll_of(cursor@.scroll, s)
            &&& is_concurrency_of(cursor@.concurrency, k)
            &&& cursor@.row_count == n
        },
{
    law_four_unnamed_outputs(outputs@, c, s, k, n, result);
}

/// A response without a cursor handle, by name or first, is refused; any other
/// is not.
pub proof fn law_refusing_a_cursor(outputs: &[OutputValue], result: Result<Cursor, Error>)
    requires
        call_ensures(cursor_from_outputs, (outputs,), result),
    ensures
        result is Err <==> is_silent(outputs@, "cursor"@, 0),
        result matches Err(error) ==> error is Protocol && error.text()
            == "sp_cursoropen: missing @cursor output parameter in server response"@,
{
    law_cursor_of_a_response(outputs@, result);
    if let Ok(cursor) = result {
        let handle = cursor@.handle.spec_i32();
        if is_silent(outputs@, "cursor"@, 0) {
            assert(!holds(outputs@, 0, handle));
            assert(!crate::laws::responses::names(outputs@, "cursor"@, handle));
        }
    }
}

/// A prepared cursor that was read from a response shows the handles, options
/// and row count of that response, knows the columns that it was given, and
/// has still to be closed and released.
pub proof fn law_reading_a_prepared_cursor(
    outputs: &[OutputValue],
    metadata: Option<Vec<Column>>,
    prepared: PreparedCursor,
    shown: PreparedHandle,
    handle: i32,
    shown_cursor: CursorHandle,
    cursor_handle: i32,
    scroll: FlagSet<CursorScrollOptions>,
    concurrency: FlagSet<CursorConcurrencyOptions>,
    row_count: i32,
    known: Option<&Vec<Column>>,
    leaks: bool,
    leaks_cursor: bool,
)
    requires
        call_ensures(
            prepared_cursor_from_outputs,
            (outputs, metadata),
            Ok::<PreparedCursor, Error>(prepared),
        ),
        call_ensures(PreparedCursor::prepared_handle, (&prepared,), shown),
        call_ensures(PreparedHandle::as_i32, (shown,), handle),
        call_ensures(PreparedCursor::cursor_handle, (&prepared,), shown_cursor),
        call_ensures(CursorHandle::as_i32, (shown_cursor,), cursor_handle),
        call_ensures(PreparedCursor::scroll_options, (&prepared,), scroll),
        call_ensures(PreparedCursor::concurrency_options, (&prepared,), concurrency),
        call_ensures(PreparedCursor::row_count, (&prepared,), row_count),
        call_ensures(PreparedCursor::metadata, (&prepared,), known),
        call_ensures(PreparedCursor::leaks_on_drop, (&prepared,), leaks),
        call_ensures(PreparedCursor::leaks_cursor_on_drop, (&prepared,), leaks_cursor),
    ensures
        handle != 0,
        tells_handle(outputs@, handle),
        cursor_handle != 0,
        tells(outputs@, "cursor"@, 1, cursor_handle),
        exists|s: i32| #[trigger]
            tells_or(outputs@, "scrollopt"@, 2, 0, s) && is_scroll_of(scroll, s),
        exists|k: i32| #[trigger]
            tells_or(outputs@, "ccopt"@, 3, 0, k) && is_concurrency_of(concurrency, k),
        tells_or(outputs@, "rowcount"@, 4, -1i32, row_count),
        known is Some <==> metadata is Some,
        metadata matches Some(columns) ==> known->0@ == columns@,
        leaks,
        leaks_cursor,
{
    let columns = match metadata {
        Some(columns) => Some(columns@),
        None => None,
    };
    law_prepared_cursor_of_a_response(outputs@, columns, Ok(prepared));
}

/// Five unnamed integers, the first two not zero, are shown as the handles, the
/// options and the row count of a prepared cursor.
pub proof fn law_reading_five_outputs(
    outputs: &[OutputValue],
    h: i32,
    c: i32,
    s: i32,
    k: i32,
    n: i32,
    metadata: Option<Vec<Column>>,
    result: Result<PreparedCursor, Error>,
)
    requires
        are_unnamed_integers(outputs@, seq![h, c, s, k, n]),
        h != 0,
        c != 0,
        call_ensures(prepared_cursor_from_outputs, (outputs, metadata), result),
    ensures
        result matches Ok(prepared) && {
            &&& prepared@.prepared_handle.spec_i32() == h
            &&& prepared@.cursor_handle.spec_i32() == c
            &&& is_scroll_of(prepared@.scroll, s)
            &&& is_concurrency_of(prepared@.concurrency, k)
            &&& prepared@.row_count == n
        },
{
    let columns = match metadata {
        Some(columns) => Some(columns@),
        None => None,
    };
    law_five_unnamed_outputs(outputs@, h, c, s, k, n, columns, result);
}

/// A response to a prepared open is refused only for a handle that is missing
/// or zero, and the error says which.
pub proof fn law_refusing_a_prepared_cursor(
    outputs: &[OutputValue],
    metadata: Option<Vec<Column>>,
    error: Error,
)
    requires
        call_ensures(
            prepared_cursor_from_outputs,
            (outputs, metadata),
            Err::<PreparedCursor, Error>(error),
        ),
    ensures
        error is Protocol,
        ({
            ||| is_silent_on_handle(outputs@) && error.text()
                == "sp_cursorprepexec: missing @prepared_handle output parameter"@
            ||| tells_handle(outputs@, 0) && error.text()
                == "sp_cursorprepexec: server returned a zero @prepared_handle"@
            ||| is_silent(outputs@, "cursor"@, 1) && error.text()
                == "sp_cursorprepexec: missing @cursor output parameter"@
            ||| tells(outputs@, "cursor"@, 1, 0) && error.text()
                == "sp_cursorprepexec: server returned a zero @cursor"@
        }),
{
    let columns = match metadata {
        Some(columns) => Some(columns@),
        None => None,
    };
    law_prepared_cursor_of_a_response(outputs@, columns, Err(error));
}

/// A response is a direct execution exactly where a message says so, and then
/// shows the statement's handle, the named or requested options, the named row
/// count and all the result sets, in order.
pub proof fn law_reading_a_direct_execution(
    outputs: &[OutputValue],
    sets: Vec<BufferedResultSet>,
    infos: &[TokenInfo],
    requested: CursorOpenOptions,
    outcome: CursorPrepExecOutcome,
    direct: bool,
    shown: PreparedHandle,
    handle: i32,
)
    requires
        requested.spec_scroll().wf(),
        requested.spec_concurrency().wf(),
        call_ensures(
            cursor_prep_exec_outcome,
            (outputs, sets, infos, requested),
            Ok::<CursorPrepExecOutcome, Error>(outcome),
        ),
        call_ensures(CursorPrepExecOutcome::is_direct, (&outcome,), direct),
        call_ensures(CursorPrepExecOutcome::prepared_handle, (&outcome,), shown),
        call_ensures(PreparedHandle::as_i32, (shown,), handle),
    ensures
        direct <==> says_direct(infos@),
        handle != 0,
        tells_handle(outputs@, handle),
        outcome matches CursorPrepExecOutcome::Direct(results) ==> {
            &&& has_named_options(outputs@, requested, results)
            &&& results@.prepared_handle == shown
            &&& results@.results.len() == sets@.len()
            &&& forall|i: int|
                0 <= i < sets@.len() ==> (#[trigger] results@.results[i]).columns
                    == sets@[i].columns@ && results@.results[i].rows == sets@[i].rows@
        },
        outcome matches CursorPrepExecOutcome::Cursor(prepared) ==> {
            &&& has_told_options(outputs@, prepared)
            &&& tells(outputs@, "cursor"@, 1, prepared@.cursor_handle.spec_i32())
            &&& prepared@.prepared_handle == shown
            &&& sets@.len() == 0 ==> prepared@.metadata is None
            &&& sets@.len() > 0 ==> prepared@.metadata == Some(sets@[0].columns@)
        },
{
    law_outcome_of_a_response(outputs@, sets@, infos@, requested, Ok(outcome));
}

/// Where the statement has a handle and a message says that it was executed
/// directly, the response is never refused.
pub proof fn law_refusing_an_outcome(
    outputs: &[OutputValue],
    sets: Vec<BufferedResultSet>,
    infos: &[TokenInfo],
    requested: CursorOpenOptions,
    error: Error,
)
    requires
        requested.spec_scroll().wf(),
        requested.spec_concurrency().wf(),
        call_ensures(
            cursor_prep_exec_outcome,
            (outputs, sets, infos, requested),
            Err::<CursorPrepExecOutcome, Error>(error),
        ),
    ensures
        error is Protocol,
        ({
            ||| is_silent_on_handle(outputs@) && error.text()
                == "sp_cursorprepexec: missing @prepared_handle output parameter"@
            ||| tells_handle(outputs@, 0) && error.text()
                == "sp_cursorprepexec: server returned a zero @prepared_handle"@
            ||| !says_direct(infos@) && is_silent(outputs@, "cursor"@, 1) && error.text()
                == "sp_cursorprepexec: missing @cursor output parameter"@
            ||| !says_direct(infos@) && tells(outputs@, "cursor"@, 1, 0) && error.text()
                == "sp_cursorprepexec: server returned a zero @cursor"@
        }),
{
    law_outcome_of_a_response(outputs@, sets@, infos@, requested, Err(error));
}

/// What an outcome is taken apart into is what it held.
pub proof fn law_taking_an_outcome_apart(
    outcome: CursorPrepExecOutcome,
    cursor: Result<PreparedCursor, DirectResults>,
    direct: Result<DirectResults, PreparedCursor>,
)
    requires
        call_ensures(CursorPrepExecOutcome::into_cursor, (outcome,), cursor),
        call_ensures(CursorPrepExecOutcome::into_direct, (outcome,), direct),
    ensures
        match outcome {
            CursorPrepExecOutcome::Cursor(c) => {
                &&& cursor matches Ok(same) && same == c
                &&& direct matches Err(same) && same == c
            },
            CursorPrepExecOutcome::Direct(d) => {
                &&& cursor matches Err(same) && same == d
                &&& direct matches Ok(same) && same == d
            },
        },
{
}

/// Direct result sets show the columns and rows that were buffered, in order.
pub proof fn law_reading_result_sets(
    sets: Vec<BufferedResultSet>,
    results: Vec<DirectResultSet>,
    i: int,
    columns: &[Column],
    rows: &[Row],
    owned: Vec<Row>,
)
    requires
        call_ensures(direct_result_sets, (sets,), results),
        0 <= i < sets@.len(),
        call_ensures(DirectResultSet::columns, (&results@[i],), columns),
        call_ensures(DirectResultSet::rows, (&results@[i],), rows),
        call_ensures(DirectResultSet::into_rows, (results@[i],), owned),
    ensures
        results@.len() == sets@.len(),
        columns@ == sets@[i].columns@,
        rows@ == sets@[i].rows@,
        owned@ == sets@[i].rows@,
{
    law_result_sets_are_kept(sets@[i], sets@, results@);
}

/// Releasing a directly executed statement sends `sp_unprepare` with the handle
/// that it shows, and nothing else. It leaks until that is out, and hands out
/// its result sets once the response has been read.
pub proof fn law_releasing_a_direct_execution(
    direct: DirectResults,
    shown: PreparedHandle,
    handle: i32,
    leaks: bool,
    held: &[DirectResultSet],
    call: DirectUnprepareCall,
    sending: (DirectUnprepareCall, Action<'static>),
    sent: (DirectUnprepareCall, Action<'static>),
    done: (DirectUnprepareCall, Action<'static>),
    before: &DirectResults,
    after: &DirectResults,
    leaks_before: bool,
    leaks_after: bool,
    early: Option<Vec<DirectResultSet>>,
    results: Option<Vec<DirectResultSet>>,
)
    requires
        call_ensures(DirectResults::prepared_handle, (&direct,), shown),
        call_ensures(PreparedHandle::as_i32, (shown,), handle),
        call_ensures(DirectResults::leaks_on_drop, (&direct,), leaks),
        call_ensures(DirectResults::results, (&direct,), held),
        call_ensures(DirectResults::unprepare, (direct,), call),
        call_ensures(DirectUnprepareCall::step, (call, true), sending),
        call_ensures(DirectUnprepareCall::step, (sending.0, true), sent),
        call_ensures(DirectUnprepareCall::step, (sent.0, true), done),
        call_ensures(DirectUnprepareCall::direct, (&sending.0,), before),
        call_ensures(DirectUnprepareCall::direct, (&sent.0,), after),
        call_ensures(DirectResults::leaks_on_drop, (before,), leaks_before),
        call_ensures(DirectResults::leaks_on_drop, (after,), leaks_after),
        call_ensures(DirectUnprepareCall::into_results, (sent.0,), early),
        call_ensures(DirectUnprepareCall::into_results, (done.0,), results),
    ensures
        sends_integer(sending.1, RpcProcId::Unprepare, handle),
        sent.1 is Receive,
        done.1 is Finish,
        leaks_before == leaks,
        !leaks_after,
        early is None,
        results matches Some(results) && {
            &&& results@.len() == held@.len()
            &&& forall|i: int| 0 <= i < held@.len() ==> (#[trigger] results@[i])@ == held@[i]@
        },
{
    law_direct_unprepare_call(direct@, sending.1, true);
    if let Some(results) = results {
        let model = crate::direct::sets_model(results@);
        assert(model == crate::direct::sets_model(held@));
        assert(model.len() == results@.len());
        assert(crate::direct::sets_model(held@).len() == held@.len());
        assert forall|i: int| 0 <= i < held@.len() implies (#[trigger] results@[i])@
            == held@[i]@ by {
            assert(model[i] == results@[i]@);
            assert(crate::direct::sets_model(held@)[i] == held@[i]@);
        }
    }
}

/// Releasing a prepared cursor that still has its cursor first sends
/// `sp_cursorclose` with the cursor handle that it shows.
pub proof fn law_releasing_closes_first(
    prepared: PreparedCursor,
    shown: CursorHandle,
    handle: i32,
    has_cursor: bool,
    call: UnprepareCall,
    next: (UnprepareCall, Action<'static>),
)
    requires
        call_ensures(PreparedCursor::cursor_handle, (&prepared,), shown),
        call_ensures(CursorHandle::as_i32, (shown,), handle),
        call_ensures(PreparedCursor::leaks_cursor_on_drop, (&prepared,), has_cursor),
        has_cursor,
        call_ensures(PreparedCursor::unprepare, (prepared,), call) || call_ensures(
            PreparedCursor::close_and_unprepare,
            (prepared,),
            call,
        ),
        call_ensures(UnprepareCall::step, (call, true), next),
    ensures
        sends_integer(next.1, RpcProcId::CursorClose, handle),
{
    law_unprepare_call_with_cursor(prepared@, prepared@.cursor->0, next.1, true);
}

/// The release of a prepared cursor sends `sp_cursorunprepare` with the
/// statement's handle once the close is complete, after another flush. The
/// statement leaks until that is out.
pub proof fn law_releasing_after_the_close(
    prepared: PreparedCursor,
    shown: PreparedHandle,
    handle: i32,
    has_cursor: bool,
    call: UnprepareCall,
    one: (UnprepareCall, Action<'static>),
    two: (UnprepareCall, Action<'static>),
    three: (UnprepareCall, Action<'static>),
    four: (UnprepareCall, Action<'static>),
    five: (UnprepareCall, Action<'static>),
    six: (UnprepareCall, Action<'static>),
    after: &PreparedCursor,
    leaks_after: bool,
)
    requires
        call_ensures(PreparedCursor::prepared_handle, (&prepared,), shown),
        call_ensures(PreparedHandle::as_i32, (shown,), handle),
        call_ensures(PreparedCursor::leaks_cursor_on_drop, (&prepared,), has_cursor),
        has_cursor,
        call_ensures(PreparedCursor::unprepare, (prepared,), call),
        call_ensures(UnprepareCall::step, (call, true), one),
        call_ensures(UnprepareCall::step, (one.0, true), two),
        call_ensures(UnprepareCall::step, (two.0, true), three),
        call_ensures(UnprepareCall::step, (three.0, true), four),
        call_ensures(UnprepareCall::step, (four.0, true), five),
        call_ensures(UnprepareCall::step, (five.0, true), six),
        call_ensures(UnprepareCall::prepared, (&five.0,), after),
        call_ensures(PreparedCursor::leaks_on_drop, (after,), leaks_after),
    ensures
        two.1 is Receive,
        three.1 is Flush,
        sends_integer(four.1, RpcProcId::CursorUnprepare, handle),
        five.1 is Receive,
        six.1 is Finish,
        !leaks_after,
{
    law_unprepare_call_with_cursor(prepared@, prepared@.cursor->0, one.1, true);
    assert(four.1@ == three.0@.step(true).1);
}

/// The release of a prepared cursor whose cursor is gone sends
/// `sp_cursorunprepare` with the statement's handle at once.
pub proof fn law_releasing_without_a_cursor(
    prepared: PreparedCursor,
    shown: PreparedHandle,
    handle: i32,
    has_cursor: bool,
    call: UnprepareCall,
    next: (UnprepareCall, Action<'static>),
)
    requires
        call_ensures(PreparedCursor::prepared_handle, (&prepared,), shown),
        call_ensures(PreparedHandle::as_i32, (shown,), handle),
        call_ensures(PreparedCursor::leaks_cursor_on_drop, (&prepared,), has_cursor),
        !has_cursor,
        call_ensures(PreparedCursor::unprepare, (prepared,), call),
        call_ensures(UnprepareCall::step, (call, true), next),
    ensures
        sends_integer(next.1, RpcProcId::CursorUnprepare, handle),
{
    law_unprepare_call_without_cursor(prepared@, true);
    assert(next.1@ == call@.step(true).1);
}

/// A procedure parameter shows the name, type and value that it was given, and
/// the direction that it was made for, and goes out with them.
pub proof fn law_sending_a_procedure_parameter<'a>(
    parameter: ProcedureParameter<'a>,
    name: Option<&str>,
    direction: ParameterDirection,
    type_info: &TypeInfo,
    value: &ColumnData<'a>,
    param: RpcParam<'a>,
)
    requires
        call_ensures(ProcedureParameter::<'a>::name, (&parameter,), name),
        call_ensures(ProcedureParameter::<'a>::direction, (&parameter,), direction),
        call_ensures(ProcedureParameter::<'a>::type_info, (&parameter,), type_info),
        call_ensures(ProcedureParameter::<'a>::value, (&parameter,), value),
        call_ensures(ProcedureParameter::<'a>::into_rpc_param, (parameter,), param),
    ensures
        name matches Some(name) ==> param.name@ == name@,
        name is None ==> param.name@.len() == 0,
        param.flags@.contains(RpcStatus::ByRefValue) <==> direction != ParameterDirection::Input,
        param.type_info == Some(*type_info),
        param.value == *value,
{
    law_procedure_parameter(parameter@, param);
}

/// The three ways to make a procedure parameter give it their direction, and
/// the type and value that they are given, and no name.
pub proof fn law_making_procedure_parameters<'a>(
    type_info: TypeInfo,
    value: ColumnData<'a>,
    a: ProcedureParameter<'a>,
    b: ProcedureParameter<'a>,
    c: ProcedureParameter<'a>,
)
    requires
        call_ensures(ProcedureParameter::<'a>::input, (type_info, value), a),
        call_ensures(ProcedureParameter::<'a>::output, (type_info, value), b),
        call_ensures(ProcedureParameter::<'a>::input_output, (type_info, value), c),
    ensures
        a@.direction is Input,
        b@.direction is Output,
        c@.direction is InputOutput,
        a@.name is None && b@.name is None && c@.name is None,
        a@.type_info == type_info && b@.type_info == type_info && c@.type_info == type_info,
        a@.value == value && b@.value == value && c@.value == value,
{
}

/// Naming a parameter gives it that name, and changes nothing else of it.
pub proof fn law_naming_a_parameter<'a, T: IntoText<'a>>(
    before: ProcedureParameter<'a>,
    name: T,
    after: ProcedureParameter<'a>,
)
    requires
        call_ensures(ProcedureParameter::<'a>::named::<T>, (before, name), after),
    ensures
        after@.name == Some(name.spec_text()),
        after@.direction == before@.direction,
        after@.type_info == before@.type_info,
        after@.value == before@.value,
{
}

/// Calling a procedure sends its name, and its parameters in order, each with
/// its own name, direction, type and value.
pub proof fn law_calling_a_procedure<'a, T: IntoText<'a>>(
    proc: T,
    parameters: Vec<ProcedureParameter<'a>>,
    call: RpcExchange<'a>,
    next: (RpcExchange<'a>, Action<'a>),
)
    requires
        call_ensures(call_procedure::<'a, T>, (proc, parameters), call),
        call_ensures(RpcExchange::<'a>::step, (call, true), next),
    ensures
        next.1 matches Action::Send(request) && {
            &&& request.proc matches RpcProcIdValue::Name(name) && name@ == proc.spec_text()
            &&& request.params@.len() == parameters@.len()
            &&& forall|i: int|
                0 <= i < parameters@.len() ==> {
                    let sent = #[trigger] request.params@[i];
                    let model = parameters@[i]@;
                    &&& model.name matches Some(name) ==> sent.name@ == name
                    &&& model.name is None ==> sent.name@.len() == 0
                    &&& sent.flags@.contains(RpcStatus::ByRefValue) <==> !(model.direction
                        is Input)
                    &&& sent.type_info == Some(model.type_info)
                    &&& sent.value == model.value
                }
        },
{
    law_procedure_call_sends(proc.spec_text(), parameters@, next.1);
    if let Action::Send(request) = next.1 {
        law_procedure_call(proc.spec_text(), parameters@, request);
    }
}

/// A procedure's result is what the response brought, with the status read as a
/// signed integer.
pub proof fn law_reading_a_procedure_result(
    result_sets: Vec<BufferedResultSet>,
    output_values: Vec<OutputValue>,
    return_status: Option<u32>,
    messages: Vec<TokenInfo>,
    result: ProcedureResult,
)
    requires
        call_ensures(
            ProcedureResult::from_response,
            (result_sets, output_values, return_status, messages),
            result,
        ),
    ensures
        result.result_sets@ == result_sets@,
        result.output_values@ == output_values@,
        result.messages@ == messages@,
        result.return_status is Some <==> return_status is Some,
        return_status matches Some(word) ==> same_bits(word, result.return_status->0),
{
}

/// The words of flags and the integers that carry them are the same bits, and
/// what is read from an integer are the known flags whose bits are set in it.
pub proof fn law_reading_options(
    word: u32,
    value: i32,
    back: u32,
    scroll: FlagSet<CursorScrollOptions>,
    concurrency: FlagSet<CursorConcurrencyOptions>,
)
    requires
        call_ensures(flags_to_i32, (word,), value),
        call_ensures(i32_to_flags, (value,), back),
        call_ensures(i32_to_scroll_flags, (value,), scroll),
        call_ensures(i32_to_cc_flags, (value,), concurrency),
    ensures
        same_bits(word, value),
        back == word,
        is_scroll_of(scroll, value),
        is_concurrency_of(concurrency, value),
{
    law_signed_integers_are_the_same_bits(word, value);
    law_scroll_flags_of_an_integer(value, word);
    law_concurrency_flags_of_an_integer(value, word);
    assert(same_bits(word, value));
}

/// A set that is made of a word contains just the flags whose bits are set in
/// the word, and its own word has no other bits.
pub proof fn law_using_flag_sets<F: Flag>(
    word: u32,
    set: FlagSet<F>,
    bits: u32,
    flag: F,
    found: bool,
    none: bool,
    other: FlagSet<F>,
    both: FlagSet<F>,
)
    requires
        call_ensures(FlagSet::<F>::from_bits_truncate, (word,), set),
        call_ensures(FlagSet::<F>::bits, (&set,), bits),
        call_ensures(FlagSet::<F>::contains, (&set, flag), found),
        call_ensures(FlagSet::<F>::is_empty, (&set,), none),
        call_ensures(FlagSet::<F>::union, (set, other), both),
    ensures
        found <==> word & flag.spec_bit() != 0,
        bits == word & F::spec_mask(),
        none ==> !found,
        both@.contains(flag) <==> found || other@.contains(flag),
{
    crate::laws::values::law_truncation_keeps_the_known_flags(word, flag);
}

/// An output goes by a name if its own name is that one, with or without an
/// `@`, and gives the integer that it holds.
pub proof fn law_asking_an_output(
    output: &OutputValue,
    name: &str,
    matched: bool,
    value: Option<i32>,
    number: i32,
)
    requires
        name@.len() > 0,
        name@[0] != '@',
        call_ensures(OutputValue::matches_name, (output, name), matched),
        call_ensures(OutputValue::get_i32, (output,), value),
    ensures
        matched <==> output.name@ == name@ || output.name@ == seq!['@'] + name@,
        value == Some(number) <==> output.value == ColumnData::<'static>::I32(Some(number)),
{
    law_outputs_and_names(*output, name@);
}

/// Closing the cursor of a prepared cursor takes the cursor away, changes
/// nothing else, and sends `sp_cursorclose` with the cursor handle that is
/// shown, if there was a cursor.
pub proof fn law_closing_the_cursor_of_a_prepared_cursor(
    prepared: &mut PreparedCursor,
    call: Option<CloseCall>,
)
    requires
        old(prepared)@.wf(),
        call_ensures(PreparedCursor::close_cursor, (prepared,), call),
    ensures
        call is Some <==> old(prepared)@.cursor is Some,
        call matches Some(call) ==> forall|next: (CloseCall, Action<'static>)| #[trigger]
            call_ensures(CloseCall::step, (call, true), next) ==> sends_integer(
                next.1,
                RpcProcId::CursorClose,
                old(prepared)@.cursor_handle.spec_i32(),
            ),
        final(prepared)@.cursor is None,
        final(prepared)@.prepared_handle == old(prepared)@.prepared_handle,
        final(prepared)@.cursor_handle == old(prepared)@.cursor_handle,
        final(prepared)@.scroll == old(prepared)@.scroll,
        final(prepared)@.concurrency == old(prepared)@.concurrency,
        final(prepared)@.row_count == old(prepared)@.row_count,
        final(prepared)@.metadata == old(prepared)@.metadata,
        final(prepared)@.released == old(prepared)@.released,
{
    if let Some(call) = call {
        let cursor = old(prepared)@.cursor->0;
        assert forall|next: (CloseCall, Action<'static>)| #[trigger]
            call_ensures(CloseCall::step, (call, true), next) implies sends_integer(
            next.1,
            RpcProcId::CursorClose,
            old(prepared)@.cursor_handle.spec_i32(),
        ) by {
            law_close_call(cursor, next.1, true);
        }
    }
}

/// Options show the flags that they were made of.
pub proof fn law_making_options<
    S: IntoFlags<CursorScrollOptions>,
    C: IntoFlags<CursorConcurrencyOptions>,
>(
    scroll: S,
    concurrency: C,
    options: CursorOpenOptions,
    shown_scroll: FlagSet<CursorScrollOptions>,
    shown_concurrency: FlagSet<CursorConcurrencyOptions>,
)
    requires
        call_ensures(CursorOpenOptions::new::<S, C>, (scroll, concurrency), options),
        call_ensures(CursorOpenOptions::scroll, (&options,), shown_scroll),
        call_ensures(CursorOpenOptions::concurrency, (&options,), shown_concurrency),
    ensures
        shown_scroll == scroll.spec_into_flags(),
        shown_scroll@ == scroll.stands_for(),
        shown_concurrency == concurrency.spec_into_flags(),
        shown_concurrency@ == concurrency.stands_for(),
{
}

/// A poll that reports a request saw one, and one that reports none has
/// registered the task and seen none after that.
pub proof fn law_polling(signal: &CancelSignal, cx: &Context<'_>, report: CancelPoll)
    requires
        call_ensures(CancelSignal::poll, (signal, cx), report),
    ensures
        report is Ready ==> signal.spec_state().was_seen(true),
        report is Pending ==> signal.spec_state().was_registered(cx),
        report is Pending ==> signal.spec_state().was_seen_after_registering(cx, false),
{
}

/// A cancellation raises the flag and wakes the task after that, on the state
/// that the token and its clones share.
pub proof fn law_cancelling(token: &CancellationToken, copy: CancellationToken)
    requires
        call_ensures(CancellationToken::clone, (token,), copy),
        call_ensures(CancellationToken::cancel, (&copy,), ()),
    ensures
        token.spec_state().was_set(true),
        token.spec_state().was_woken(),
        token.spec_state().was_woken_after_raising(),
{
}

/// What a token shows is what a look at its state gave.
pub proof fn law_asking_a_token(token: &CancellationToken, cancelled: bool)
    requires
        call_ensures(CancellationToken::is_cancelled, (token,), cancelled),
    ensures
        token.spec_state().was_seen(cancelled),
{
}

} // verus!
