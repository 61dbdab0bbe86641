//! Client-side cursors.
//!
//! A cursor lets the server materialize a result set step by step, so that a
//! client can page through it without buffering all of it.
use crate::flags::FlagSet;
use crate::options::{CursorConcurrencyOptions, CursorScrollOptions};
use crate::params::{build_cursorfetch_params, cursorfetch_params};
use crate::rpc::{
    in_param, params_model, Action, ActionModel, ExchangeModel, ProcModel, RequestModel,
    RpcExchange, RpcParam, RpcProcId, RpcProcIdValue, RpcRequest,
};
use crate::types::ColumnData;
use vstd::prelude::*;
use vstd::std_specs::convert::FromSpecImpl;

verus! {

/// A cursor fetch direction + row count request.
///
/// Each variant encodes exactly the arguments that are meaningful for that
/// fetch direction, so you can't accidentally pass a `row_num` to `Next` or
/// forget it for `Absolute`.
#[derive(Debug, Clone, Copy, PartialEq, Eq)]
pub enum Fetch {
    /// Reposition to the first row and return up to `count` rows.
    First {
        /// Number of rows to return.
        count: i32,
    },
    /// Advance past the current position and return up to `count` rows.
    Next {
        /// Number of rows to return.
        count: i32,
    },
    /// Back up before the current position and return up to `count` rows.
    Prev {
        /// Number of rows to return.
        count: i32,
    },
    /// Reposition to the last row and return up to `count` rows.
    Last {
        /// Number of rows to return.
        count: i32,
    },
    /// Reposition to the 1-based absolute row number `row` and return up to
    /// `count` rows.
    Absolute {
        /// 1-based row position.
        row: i32,
        /// Number of rows to return.
        count: i32,
    },
    /// Reposition by `offset` rows relative to the current position (may be
    /// negative) and return up to `count` rows.
    Relative {
        /// Signed row offset from the current position.
        offset: i32,
        /// Number of rows to return.
        count: i32,
    },
    /// Re-read the current rows without changing position.
    Refresh {
        /// Number of rows to refresh.
        count: i32,
    },
}

impl Fetch {
    /// The request as `(fetch_type_bits, row_num, count)`.
    pub open spec fn spec_encode(self) -> (i32, i32, i32) {
        match self {
            Fetch::First { count } => (0x0001, 0, count),
            Fetch::Next { count } => (0x0002, 0, count),
            Fetch::Prev { count } => (0x0004, 0, count),
            Fetch::Last { count } => (0x0008, 0, count),
            Fetch::Absolute { row, count } => (0x0010, row, count),
            Fetch::Relative { offset, count } => (0x0020, offset, count),
            Fetch::Refresh { count } => (0x0080, 0, count),
        }
    }

    /// Encode this request as `(fetch_type_bits, row_num, count)` for the
    /// wire. For directions that don't use `row_num`, `0` is sent.
    pub fn encode(self) -> (encoded: (i32, i32, i32))
        ensures
            encoded == self.spec_encode(),
    {
        match self {
            Fetch::First { count } => (0x0001, 0, count),
            Fetch::Next { count } => (0x0002, 0, count),
            Fetch::Prev { count } => (0x0004, 0, count),
            Fetch::Last { count } => (0x0008, 0, count),
            Fetch::Absolute { row, count } => (0x0010, row, count),
            Fetch::Relative { offset, count } => (0x0020, offset, count),
            Fetch::Refresh { count } => (0x0080, 0, count),
        }
    }
}

/// The encoding of a fetch request says which request it was.
pub proof fn law_fetch_encoding_is_unambiguous(a: Fetch, b: Fetch)
    requires
        a.spec_encode() == b.spec_encode(),
    ensures
        a == b,
{
}

/// Only `Absolute` and `Relative` send a row number; all others send zero.
pub proof fn law_row_number_only_where_used(fetch: Fetch)
    requires
        !(fetch is Absolute),
        !(fetch is Relative),
    ensures
        fetch.spec_encode().1 == 0,
{
}

/// An opaque handle identifying a cursor on the server.
///
/// Wraps the raw `i32` that TDS ships on the wire so the value can't be
/// confused with other handle-shaped integers.
#[derive(Debug, Clone, Copy, PartialEq, Eq, Hash)]
pub struct CursorHandle(i32);

impl CursorHandle {
    /// The wire value of the handle.
    pub closed spec fn spec_i32(self) -> i32 {
        self.0
    }

    /// The handle with the wire value `raw`.
    pub closed spec fn spec_from_i32(raw: i32) -> Self {
        CursorHandle(raw)
    }

    /// The handle with the wire value `raw`.
    pub fn from_i32(raw: i32) -> (handle: Self)
        ensures
            handle.spec_i32() == raw,
            handle == Self::spec_from_i32(raw),
    {
        CursorHandle(raw)
    }

    /// Raw wire value. Mainly useful for logging; pass the typed
    /// [`CursorHandle`] around instead of the `i32` whenever possible.
    pub fn as_i32(self) -> (raw: i32)
        ensures
            raw == self.spec_i32(),
    {
        self.0
    }

    /// A handle is its wire value.
    pub broadcast proof fn lemma_wire_value(raw: i32)
        ensures
            #[trigger] Self::spec_from_i32(raw).spec_i32() == raw,
    {
    }

    /// No two handles have the same wire value.
    pub proof fn lemma_same_value(a: Self, b: Self)
        ensures
            a.spec_i32() == b.spec_i32() ==> a == b,
    {
    }
}

impl From<CursorHandle> for i32 {
    fn from(handle: CursorHandle) -> (raw: i32) {
        handle.0
    }
}

impl FromSpecImpl<CursorHandle> for i32 {
    open spec fn obeys_from_spec() -> bool {
        true
    }

    open spec fn from_spec(handle: CursorHandle) -> i32 {
        handle.spec_i32()
    }
}

/// A server-side cursor.
///
/// Page through rows with [`fetch`](Self::fetch); release server-side
/// resources with [`close`](Self::close).
#[derive(Debug)]
pub struct Cursor {
    handle: CursorHandle,
    scrollopt: FlagSet<CursorScrollOptions>,
    ccopt: FlagSet<CursorConcurrencyOptions>,
    row_count: i32,
    /// `true` once the request to close the cursor has reached the wire.
    closed: bool,
}

/// What is known of a cursor.
pub struct CursorModel {
    /// The server's handle.
    pub handle: CursorHandle,
    /// The negotiated scroll flags.
    pub scroll: FlagSet<CursorScrollOptions>,
    /// The negotiated concurrency flags.
    pub concurrency: FlagSet<CursorConcurrencyOptions>,
    /// The server's row count, `-1` if unknown.
    pub row_count: i32,
    /// Whether the request to close the cursor has reached the wire.
    pub closed: bool,
}

impl View for Cursor {
    type V = CursorModel;

    closed spec fn view(&self) -> CursorModel {
        CursorModel {
            handle: self.handle,
            scroll: self.scrollopt,
            concurrency: self.ccopt,
            row_count: self.row_count,
            closed: self.closed,
        }
    }
}

/// The request that fetches rows from a cursor.
pub open spec fn fetch_request(handle: CursorHandle, fetch: Fetch) -> RequestModel<'static> {
    RequestModel {
        proc: ProcModel::Id(RpcProcId::CursorFetch),
        params: cursorfetch_params(handle, fetch),
    }
}

/// The request that closes a cursor.
pub open spec fn close_request(handle: CursorHandle) -> RequestModel<'static> {
    RequestModel {
        proc: ProcModel::Id(RpcProcId::CursorClose),
        params: seq![in_param(ColumnData::I32(Some(handle.spec_i32())))],
    }
}

impl Cursor {
    /// A cursor that the server has just opened.
    pub(crate) fn opened(
        handle: CursorHandle,
        scrollopt: FlagSet<CursorScrollOptions>,
        ccopt: FlagSet<CursorConcurrencyOptions>,
        row_count: i32,
    ) -> (cursor: Self)
        ensures
            cursor@ == (CursorModel {
                handle,
                scroll: scrollopt,
                concurrency: ccopt,
                row_count,
                closed: false,
            }),
    {
        Cursor { handle, scrollopt, ccopt, row_count, closed: false }
    }

    /// The server-assigned cursor handle.
    pub fn handle(&self) -> (handle: CursorHandle)
        ensures
            handle == self@.handle,
    {
        self.handle
    }

    /// Negotiated scroll flags, as returned by the server after
    /// `sp_cursoropen` — may differ from the options requested.
    pub fn scroll_options(&self) -> (set: FlagSet<CursorScrollOptions>)
        ensures
            set == self@.scroll,
    {
        self.scrollopt
    }

    /// Negotiated concurrency flags, as returned by the server after
    /// `sp_cursoropen`.
    pub fn concurrency_options(&self) -> (set: FlagSet<CursorConcurrencyOptions>)
        ensures
            set == self@.concurrency,
    {
        self.ccopt
    }

    /// Server-reported row count. `-1` indicates "unknown" (e.g. dynamic
    /// cursors where the full row count is not known up front).
    pub fn row_count(&self) -> (count: i32)
        ensures
            count == self@.row_count,
    {
        self.row_count
    }

    /// Whether giving up the cursor now leaves it open on the server until
    /// the connection closes.
    pub fn leaks_on_drop(&self) -> (leaks: bool)
        ensures
            leaks == !self@.closed,
    {
        !self.closed
    }

    /// Fetch rows from the cursor.
    ///
    /// The [`Fetch`] enum encodes the valid combinations of direction and
    /// anchor arguments, e.g. `Fetch::Next { count: 10 }` or
    /// `Fetch::Absolute { row: 42, count: 5 }`.
    pub fn fetch(&self, fetch: Fetch) -> (call: RpcExchange<'static>)
        ensures
            call@ == ExchangeModel::Flushing(fetch_request(self@.handle, fetch)),
    {
        RpcExchange::start(
            RpcRequest {
                proc: RpcProcIdValue::Id(RpcProcId::CursorFetch),
                params: build_cursorfetch_params(self.handle, fetch),
            },
        )
    }

    /// Close the cursor and release its server-side resources.
    ///
    /// The cursor is flagged closed as soon as the `sp_cursorclose` request
    /// reaches the wire, so an error met while the response is read
    /// (cancellation, network glitch, etc.) does not make it count as leaked:
    /// the handle is gone from the server's perspective regardless.
    pub fn close(self) -> (call: CloseCall)
        ensures
            call@ == close_call(self@),
    {
        let mut params: Vec<RpcParam<'static>> = Vec::new();
        params.push(RpcParam::input(ColumnData::I32(Some(self.handle.as_i32()))));
        assert(params_model(params@) =~= close_request(self.handle).params);
        let exchange = RpcExchange::start(
            RpcRequest { proc: RpcProcIdValue::Id(RpcProcId::CursorClose), params },
        );
        CloseCall { cursor: self, exchange }
    }
}

/// The closing of a cursor, in progress. Its first action is to flush.
#[derive(Debug)]
pub struct CloseCall {
    cursor: Cursor,
    exchange: RpcExchange<'static>,
}

/// The progress of closing a cursor.
pub struct CloseModel {
    /// The cursor that is being closed.
    pub cursor: CursorModel,
    /// How far the call is.
    pub exchange: ExchangeModel<'static>,
}

impl View for CloseCall {
    type V = CloseModel;

    closed spec fn view(&self) -> CloseModel {
        CloseModel { cursor: self.cursor@, exchange: self.exchange@ }
    }
}

/// The beginning of closing a cursor.
pub open spec fn close_call(cursor: CursorModel) -> CloseModel {
    CloseModel { cursor, exchange: ExchangeModel::Flushing(close_request(cursor.handle)) }
}

impl CloseModel {
    /// Where the call stands after the connection did what was asked, well
    /// (`ok`) or not, and what comes next. The cursor counts as closed from
    /// the moment its request is out.
    pub open spec fn step(self, ok: bool) -> (CloseModel, ActionModel<'static>) {
        let (exchange, action) = self.exchange.step(ok);
        let closed = self.cursor.closed || (self.exchange is Sending && ok);
        (CloseModel { cursor: CursorModel { closed, ..self.cursor }, exchange }, action)
    }

    /// Where the call stands after a series of reports from the connection.
    pub open spec fn run(self, reports: Seq<bool>) -> CloseModel
        decreases reports.len(),
    {
        if reports.len() == 0 {
            self
        } else {
            self.step(reports[0]).0.run(reports.drop_first())
        }
    }
}

impl CloseCall {
    /// Take note of how the last action went, and say what comes next.
    pub fn step(self, ok: bool) -> (next: (Self, Action<'static>))
        ensures
            (next.0@, next.1@) == self@.step(ok),
    {
        let mut cursor = self.cursor;
        if self.exchange.is_sending() && ok {
            cursor.closed = true;
        }
        let (exchange, action) = self.exchange.step(ok);
        (CloseCall { cursor, exchange }, action)
    }

    /// The cursor that is being closed.
    pub fn cursor(&self) -> (cursor: &Cursor)
        ensures
            cursor@ == self@.cursor,
    {
        &self.cursor
    }
}

/// The part of a close call that is a plain exchange runs like one, and the
/// cursor keeps everything but its `closed` mark.
pub proof fn lemma_close_runs_the_exchange(call: CloseModel, reports: Seq<bool>)
    ensures
        call.run(reports).exchange == call.exchange.run(reports),
        call.run(reports).cursor.handle == call.cursor.handle,
        call.run(reports).cursor.scroll == call.cursor.scroll,
        call.run(reports).cursor.concurrency == call.cursor.concurrency,
        call.run(reports).cursor.row_count == call.cursor.row_count,
        call.cursor.closed ==> call.run(reports).cursor.closed,
        !(call.exchange is Flushing) && !(call.exchange is Sending) ==> call.run(
            reports,
        ).cursor.closed == call.cursor.closed,
    decreases reports.len(),
{
    if reports.len() > 0 {
        lemma_close_runs_the_exchange(call.step(reports[0]).0, reports.drop_first());
    }
}

/// An open cursor counts as closed exactly when the flush and the sending of
/// its close request succeeded. What happens while the response is read makes
/// no difference.
pub proof fn law_closed_once_on_the_wire(cursor: CursorModel, reports: Seq<bool>)
    requires
        !cursor.closed,
    ensures
        close_call(cursor).run(reports).cursor.closed <==> reports.len() >= 2 && reports[0]
            && reports[1],
{
    reveal_with_fuel(CloseModel::run, 3);
    let start = close_call(cursor);
    if reports.len() > 0 {
        let rest = reports.drop_first();
        let one = start.step(reports[0]).0;
        if !reports[0] {
            lemma_close_runs_the_exchange(one, rest);
        } else if rest.len() > 0 {
            assert(rest[0] == reports[1]);
            lemma_close_runs_the_exchange(one.step(rest[0]).0, rest.drop_first());
        }
    }
}

} // verus!
