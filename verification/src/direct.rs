//! Results that the server returned at once instead of opening a cursor.
use crate::flags::FlagSet;
use crate::options::{CursorConcurrencyOptions, CursorScrollOptions};
use crate::params::unprepare_param;
use crate::prepared::{all_well, start_unprepare, PreparedCursor, PreparedModel};
use crate::rpc::{
    law_exchange_outcome, Action, ActionModel, ExchangeModel, ProcModel, RequestModel, RpcExchange,
    RpcProcId,
};
use crate::types::{BufferedResultSet, Column, PreparedHandle, Row};
use std::sync::Arc;
use vstd::prelude::*;

verus! {

/// A single result set from an AllowDirect execution: its column metadata and
/// the rows the server streamed for it.
#[derive(Debug)]
pub struct DirectResultSet {
    columns: Arc<Vec<Column>>,
    rows: Vec<Row>,
}

/// The contents of a result set.
pub struct ResultSetModel {
    /// The columns.
    pub columns: Seq<Column>,
    /// The rows, in order.
    pub rows: Seq<Row>,
}

impl View for DirectResultSet {
    type V = ResultSetModel;

    closed spec fn view(&self) -> ResultSetModel {
        ResultSetModel { columns: self.columns@, rows: self.rows@ }
    }
}

impl View for BufferedResultSet {
    type V = ResultSetModel;

    open spec fn view(&self) -> ResultSetModel {
        ResultSetModel { columns: self.columns@, rows: self.rows@ }
    }
}

/// The contents of several result sets.
pub open spec fn sets_model(sets: Seq<DirectResultSet>) -> Seq<ResultSetModel> {
    sets.map_values(|set: DirectResultSet| set@)
}

/// The contents of several buffered result sets.
pub open spec fn buffered_model(sets: Seq<BufferedResultSet>) -> Seq<ResultSetModel> {
    sets.map_values(|set: BufferedResultSet| set@)
}

impl DirectResultSet {
    /// The result set that was buffered while the response was read.
    pub fn from_buffered(set: BufferedResultSet) -> (direct: Self)
        ensures
            direct@ == set@,
    {
        DirectResultSet { columns: set.columns, rows: set.rows }
    }

    /// The column metadata for this result set.
    pub fn columns(&self) -> (columns: &[Column])
        ensures
            columns@ == self@.columns,
    {
        self.columns.as_slice()
    }

    /// The buffered rows, in order.
    pub fn rows(&self) -> (rows: &[Row])
        ensures
            rows@ == self@.rows,
    {
        self.rows.as_slice()
    }

    /// Consume this result set, returning its owned rows.
    pub fn into_rows(self) -> (rows: Vec<Row>)
        ensures
            rows@ == self@.rows,
    {
        self.rows
    }
}

/// Turn buffered result sets into direct ones, in their order.
pub fn direct_result_sets(sets: Vec<BufferedResultSet>) -> (results: Vec<DirectResultSet>)
    ensures
        sets_model(results@) == buffered_model(sets@),
{
    let ghost all = sets@;
    let mut results: Vec<DirectResultSet> = Vec::new();
    for set in it: sets
        invariant
            it.seq() == all,
            results.len() == it.index(),
            forall|i: int| 0 <= i < results.len() ==> (#[trigger] results[i])@ == all[i]@,
    {
        assert(set == all[results.len() as int]);
        results.push(DirectResultSet::from_buffered(set));
    }
    assert(sets_model(results@) =~= buffered_model(all));
    results
}

/// The result sets a server returned inline from an AllowDirect
/// `sp_cursorprepexec`, together with the prepared handle that must still be
/// released.
///
/// No cursor was opened, so there is nothing to fetch or close — the buffered
/// [`results`](Self::results) are the complete response. Call
/// [`unprepare`](Self::unprepare) to release the prepared handle (and take
/// ownership of the result sets).
#[derive(Debug)]
pub struct DirectResults {
    prepared_handle: PreparedHandle,
    results: Vec<DirectResultSet>,
    scrollopt: FlagSet<CursorScrollOptions>,
    ccopt: FlagSet<CursorConcurrencyOptions>,
    row_count: i32,
    released: bool,
}

/// What is known of a direct execution.
pub struct DirectModel {
    /// The server's handle of the statement.
    pub prepared_handle: PreparedHandle,
    /// The result sets, in the order the server streamed them.
    pub results: Seq<ResultSetModel>,
    /// The scroll flags.
    pub scroll: FlagSet<CursorScrollOptions>,
    /// The concurrency flags.
    pub concurrency: FlagSet<CursorConcurrencyOptions>,
    /// The server's row count, `-1` if unknown.
    pub row_count: i32,
    /// Whether the request to release the statement has reached the wire.
    pub released: bool,
}

impl View for DirectResults {
    type V = DirectModel;

    closed spec fn view(&self) -> DirectModel {
        DirectModel {
            prepared_handle: self.prepared_handle,
            results: sets_model(self.results@),
            scroll: self.scrollopt,
            concurrency: self.ccopt,
            row_count: self.row_count,
            released: self.released,
        }
    }
}

/// The request that releases a statement that was executed directly.
pub open spec fn direct_unprepare_request(handle: PreparedHandle) -> RequestModel<'static> {
    RequestModel {
        proc: ProcModel::Id(RpcProcId::Unprepare),
        params: seq![unprepare_param(handle)],
    }
}

impl DirectResults {
    #[verifier::type_invariant]
    closed spec fn inv(self) -> bool {
        self.prepared_handle.spec_i32() != 0
    }

    /// The results of a statement that the server has just executed directly.
    pub(crate) fn executed(
        prepared_handle: PreparedHandle,
        results: Vec<DirectResultSet>,
        scrollopt: FlagSet<CursorScrollOptions>,
        ccopt: FlagSet<CursorConcurrencyOptions>,
        row_count: i32,
    ) -> (direct: Self)
        requires
            prepared_handle.spec_i32() != 0,
        ensures
            direct@ == (DirectModel {
                prepared_handle,
                results: sets_model(results@),
                scroll: scrollopt,
                concurrency: ccopt,
                row_count,
                released: false,
            }),
    {
        DirectResults { prepared_handle, results, scrollopt, ccopt, row_count, released: false }
    }

    /// The server-assigned prepared statement handle.
    pub fn prepared_handle(&self) -> (handle: PreparedHandle)
        ensures
            handle == self@.prepared_handle,
            handle.spec_i32() != 0,
    {
        proof {
            use_type_invariant(self);
        }
        self.prepared_handle
    }

    /// Scroll flags for the direct execution.
    ///
    /// SQL Server can omit cursor-related outputs on this path, in which case
    /// these are the options originally requested by the client.
    pub fn scroll_options(&self) -> (set: FlagSet<CursorScrollOptions>)
        ensures
            set == self@.scroll,
    {
        self.scrollopt
    }

    /// Concurrency flags for the direct execution.
    ///
    /// SQL Server can omit cursor-related outputs on this path, in which case
    /// these are the options originally requested by the client.
    pub fn concurrency_options(&self) -> (set: FlagSet<CursorConcurrencyOptions>)
        ensures
            set == self@.concurrency,
    {
        self.ccopt
    }

    /// Server-reported row count, or `-1` if unknown.
    pub fn row_count(&self) -> (count: i32)
        ensures
            count == self@.row_count,
    {
        self.row_count
    }

    /// The buffered result sets, in the order the server streamed them.
    pub fn results(&self) -> (results: &[DirectResultSet])
        ensures
            sets_model(results@) == self@.results,
    {
        self.results.as_slice()
    }

    /// Whether giving this up now leaves the statement prepared on the server
    /// until the connection closes.
    pub fn leaks_on_drop(&self) -> (leaks: bool)
        ensures
            leaks == !self@.released,
    {
        !self.released
    }

    /// Release the prepared handle via `sp_unprepare`, returning the
    /// owned result sets.
    ///
    /// There is no cursor to close, so this only unprepares the statement.
    /// The server made a handle of a directly prepared statement here rather
    /// than one of a prepared cursor, and those are released by
    /// `sp_unprepare`.
    pub fn unprepare(self) -> (call: DirectUnprepareCall)
        ensures
            call@ == direct_unprepare_call(self@),
    {
        let exchange = start_unprepare(RpcProcId::Unprepare, self.prepared_handle);
        DirectUnprepareCall { direct: self, exchange }
    }
}

/// The releasing of a directly executed statement, in progress. Its first
/// action is to flush.
#[derive(Debug)]
pub struct DirectUnprepareCall {
    direct: DirectResults,
    exchange: RpcExchange<'static>,
}

/// The progress of releasing a directly executed statement.
pub struct DirectUnprepareModel {
    /// The statement and its results.
    pub direct: DirectModel,
    /// How far the call is.
    pub exchange: ExchangeModel<'static>,
}

impl View for DirectUnprepareCall {
    type V = DirectUnprepareModel;

    closed spec fn view(&self) -> DirectUnprepareModel {
        DirectUnprepareModel { direct: self.direct@, exchange: self.exchange@ }
    }
}

/// The beginning of releasing a directly executed statement.
pub open spec fn direct_unprepare_call(direct: DirectModel) -> DirectUnprepareModel {
    DirectUnprepareModel {
        direct,
        exchange: ExchangeModel::Flushing(direct_unprepare_request(direct.prepared_handle)),
    }
}

impl DirectUnprepareModel {
    /// Where the call stands after the connection did what was asked, well
    /// (`ok`) or not, and what comes next. The statement counts as released
    /// from the moment its request is out.
    pub open spec fn step(self, ok: bool) -> (DirectUnprepareModel, ActionModel<'static>) {
        let (exchange, action) = self.exchange.step(ok);
        let released = self.direct.released || (self.exchange is Sending && ok);
        (
            DirectUnprepareModel { direct: DirectModel { released, ..self.direct }, exchange },
            action,
        )
    }

    /// Where the call stands after a series of reports from the connection.
    pub open spec fn run(self, reports: Seq<bool>) -> DirectUnprepareModel
        decreases reports.len(),
    {
        if reports.len() == 0 {
            self
        } else {
            self.step(reports[0]).0.run(reports.drop_first())
        }
    }
}

impl DirectUnprepareCall {
    /// Take note of how the last action went, and say what comes next.
    pub fn step(self, ok: bool) -> (next: (Self, Action<'static>))
        ensures
            (next.0@, next.1@) == self@.step(ok),
    {
        let mut direct = self.direct;
        if self.exchange.is_sending() && ok {
            proof {
                use_type_invariant(&direct);
            }
            direct.released = true;
        }
        let (exchange, action) = self.exchange.step(ok);
        (DirectUnprepareCall { direct, exchange }, action)
    }

    /// The statement that is being released.
    pub fn direct(&self) -> (direct: &DirectResults)
        ensures
            direct@ == self@.direct,
    {
        &self.direct
    }

    /// The result sets, once the call is complete.
    pub fn into_results(self) -> (results: Option<Vec<DirectResultSet>>)
        ensures
            match results {
                Some(results) => self@.exchange is Done && sets_model(results@)
                    == self@.direct.results,
                None => !(self@.exchange is Done),
            },
    {
        if self.exchange.is_done() {
            Some(self.direct.results)
        } else {
            None
        }
    }
}

/// The call is a plain exchange that marks the statement once the request is
/// out, and changes nothing else of it.
pub proof fn lemma_direct_release(call: DirectUnprepareModel, reports: Seq<bool>)
    ensures
        call.run(reports).exchange == call.exchange.run(reports),
        call.run(reports).direct == (DirectModel {
            released: call.run(reports).direct.released,
            ..call.direct
        }),
        call.direct.released ==> call.run(reports).direct.released,
        !call.direct.released ==> (call.run(reports).direct.released <==> match call.exchange {
            ExchangeModel::Flushing(_) => all_well(reports, 2),
            ExchangeModel::Sending => all_well(reports, 1),
            _ => false,
        }),
    decreases reports.len(),
{
    if reports.len() > 0 {
        let rest = reports.drop_first();
        lemma_direct_release(call.step(reports[0]).0, rest);
        if rest.len() > 0 {
            assert(rest[0] == reports[1]);
        }
    }
}

/// Releasing a directly executed statement sends one `sp_unprepare`, counts
/// the statement as released exactly when that went out, and hands out all
/// result sets, unchanged, exactly when the response was read as well.
pub proof fn law_direct_unprepare(direct: DirectModel, reports: Seq<bool>)
    requires
        !direct.released,
    ensures
        ({
            let start = direct_unprepare_call(direct);
            let end = start.run(reports);
            &&& start.exchange.sent(reports) == if all_well(reports, 1) {
                seq![direct_unprepare_request(direct.prepared_handle)]
            } else {
                Seq::empty()
            }
            &&& end.direct.released <==> all_well(reports, 2)
            &&& end.exchange is Done <==> all_well(reports, 3)
            &&& end.direct.results == direct.results
        }),
{
    let start = direct_unprepare_call(direct);
    lemma_direct_release(start, reports);
    law_exchange_outcome(direct_unprepare_request(direct.prepared_handle), reports);
}

/// The outcome of `sp_cursorprepexec`.
///
/// It normally opens a server-side cursor, but when the statement is opened
/// read-only with the
/// [`AllowDirect`](CursorConcurrencyOptions::AllowDirect) concurrency option
/// the server may elect the *AllowDirect* fast path: it prepares the statement
/// but skips opening a cursor and instead streams the result sets inline
/// during the response. SQL Server identifies this path with INFO 16954. This
/// enum reports which path the server took.
#[derive(Debug)]
pub enum CursorPrepExecOutcome {
    /// The server opened a cursor. Page through it with
    /// [`PreparedCursor::fetch`].
    Cursor(PreparedCursor),
    /// The server executed the statement directly, returning the result sets
    /// inline. The prepared handle still needs releasing — see
    /// [`DirectResults::unprepare`].
    Direct(DirectResults),
}

/// What is known after `sp_cursorprepexec`.
pub enum OutcomeModel {
    Cursor(PreparedModel),
    Direct(DirectModel),
}

impl View for CursorPrepExecOutcome {
    type V = OutcomeModel;

    open spec fn view(&self) -> OutcomeModel {
        match self {
            CursorPrepExecOutcome::Cursor(cursor) => OutcomeModel::Cursor(cursor@),
            CursorPrepExecOutcome::Direct(direct) => OutcomeModel::Direct(direct@),
        }
    }
}

impl OutcomeModel {
    /// The server's handle of the statement.
    pub open spec fn prepared_handle(self) -> PreparedHandle {
        match self {
            OutcomeModel::Cursor(cursor) => cursor.prepared_handle,
            OutcomeModel::Direct(direct) => direct.prepared_handle,
        }
    }
}

impl CursorPrepExecOutcome {
    /// The server-assigned prepared statement handle, which is present in both
    /// outcomes.
    pub fn prepared_handle(&self) -> (handle: PreparedHandle)
        ensures
            handle == self@.prepared_handle(),
            handle.spec_i32() != 0,
    {
        match self {
            CursorPrepExecOutcome::Cursor(cursor) => cursor.prepared_handle(),
            CursorPrepExecOutcome::Direct(direct) => direct.prepared_handle(),
        }
    }

    /// `true` if the server took the AllowDirect fast path.
    pub fn is_direct(&self) -> (direct: bool)
        ensures
            direct == (self is Direct),
    {
        match self {
            CursorPrepExecOutcome::Cursor(_) => false,
            CursorPrepExecOutcome::Direct(_) => true,
        }
    }

    /// Consume the outcome, returning the [`PreparedCursor`] if the server
    /// opened a cursor.
    ///
    /// An AllowDirect response is returned intact as `Err(DirectResults)` so
    /// its prepared handle and buffered rows remain available for cleanup and
    /// consumption.
    pub fn into_cursor(self) -> (cursor: Result<PreparedCursor, DirectResults>)
        ensures
            match self {
                CursorPrepExecOutcome::Cursor(c) => cursor == Ok::<_, DirectResults>(c),
                CursorPrepExecOutcome::Direct(d) => cursor == Err::<PreparedCursor, _>(d),
            },
    {
        match self {
            CursorPrepExecOutcome::Cursor(c) => Ok(c),
            CursorPrepExecOutcome::Direct(d) => Err(d),
        }
    }

    /// Consume the outcome, returning the [`DirectResults`] if the server took
    /// the AllowDirect fast path.
    ///
    /// A normal cursor response is returned intact as `Err(PreparedCursor)` so
    /// both server-side handles remain available for fetching and cleanup.
    pub fn into_direct(self) -> (direct: Result<DirectResults, PreparedCursor>)
        ensures
            match self {
                CursorPrepExecOutcome::Direct(d) => direct == Ok::<_, PreparedCursor>(d),
                CursorPrepExecOutcome::Cursor(c) => direct == Err::<DirectResults, _>(c),
            },
    {
        match self {
            CursorPrepExecOutcome::Direct(d) => Ok(d),
            CursorPrepExecOutcome::Cursor(c) => Err(c),
        }
    }
}

} // verus!
