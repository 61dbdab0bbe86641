//! Cursors that come with a prepared statement.
use crate::cursor::{
    close_call, fetch_request, CloseCall, CloseModel, Cursor, CursorHandle, CursorModel, Fetch,
};
use crate::error::Error;
use crate::flags::FlagSet;
use crate::options::{CursorConcurrencyOptions, CursorScrollOptions};
use crate::params::{build_unprepare_param, unprepare_param};
use crate::rpc::{
    params_model, Action, ActionModel, ExchangeModel, ProcModel, RequestModel, RpcExchange,
    RpcParam, RpcProcId, RpcProcIdValue, RpcRequest,
};
use crate::types::{Column, PreparedHandle};
use vstd::prelude::*;

verus! {

/// A cursor opened by `sp_cursorprepexec` together with its prepared handle.
///
/// The prepared handle and cursor handle are separate server-side resources.
/// Call [`close_and_unprepare`](Self::close_and_unprepare), or close the
/// cursor and unprepare the statement explicitly.
#[derive(Debug)]
pub struct PreparedCursor {
    prepared_handle: PreparedHandle,
    cursor: Option<Cursor>,
    cursor_handle: CursorHandle,
    scrollopt: FlagSet<CursorScrollOptions>,
    ccopt: FlagSet<CursorConcurrencyOptions>,
    row_count: i32,
    metadata: Option<Vec<Column>>,
    released: bool,
}

/// What is known of a prepared cursor.
pub struct PreparedModel {
    /// The server's handle of the statement.
    pub prepared_handle: PreparedHandle,
    /// The cursor, as long as nobody set out to close it.
    pub cursor: Option<CursorModel>,
    /// The server's handle of the cursor.
    pub cursor_handle: CursorHandle,
    /// The negotiated scroll flags.
    pub scroll: FlagSet<CursorScrollOptions>,
    /// The negotiated concurrency flags.
    pub concurrency: FlagSet<CursorConcurrencyOptions>,
    /// The server's row count, `-1` if unknown.
    pub row_count: i32,
    /// The columns of the result set, if the server sent them on opening.
    pub metadata: Option<Seq<Column>>,
    /// Whether the request to release the statement has reached the wire.
    pub released: bool,
}

impl PreparedModel {
    /// Neither handle is zero. The cursor, while there is one, is open and
    /// has the handle and options of the whole. A released statement has no
    /// cursor.
    pub open spec fn wf(self) -> bool {
        &&& self.prepared_handle.spec_i32() != 0
        &&& self.cursor_handle.spec_i32() != 0
        &&& self.released ==> self.cursor is None
        &&& self.cursor matches Some(cursor) ==> {
            &&& !cursor.closed
            &&& cursor.handle == self.cursor_handle
            &&& cursor.scroll == self.scroll
            &&& cursor.concurrency == self.concurrency
            &&& cursor.row_count == self.row_count
        }
    }

    /// The call that closes the cursor, if there is one to close.
    pub open spec fn closing(self) -> Option<CloseModel> {
        match self.cursor {
            Some(cursor) => Some(close_call(cursor)),
            None => None,
        }
    }

    /// What is left after the cursor has been taken to be closed.
    pub open spec fn without_cursor(self) -> PreparedModel {
        PreparedModel { cursor: None, ..self }
    }
}

/// To close the cursor a second time does nothing: there is no call to make,
/// and nothing changes. Once closed, there is no cursor to fetch from.
pub proof fn law_close_cursor_is_idempotent(prepared: PreparedModel)
    requires
        prepared.wf(),
    ensures
        prepared.without_cursor().cursor is None,
        prepared.without_cursor().closing() is None,
        prepared.without_cursor().without_cursor() == prepared.without_cursor(),
        prepared.without_cursor().wf(),
{
}

impl View for PreparedCursor {
    type V = PreparedModel;

    closed spec fn view(&self) -> PreparedModel {
        PreparedModel {
            prepared_handle: self.prepared_handle,
            cursor: match self.cursor {
                Some(cursor) => Some(cursor@),
                None => None,
            },
            cursor_handle: self.cursor_handle,
            scroll: self.scrollopt,
            concurrency: self.ccopt,
            row_count: self.row_count,
            metadata: match self.metadata {
                Some(metadata) => Some(metadata@),
                None => None,
            },
            released: self.released,
        }
    }
}

/// The request that releases the statement of a prepared cursor.
pub open spec fn unprepare_request(handle: PreparedHandle) -> RequestModel<'static> {
    RequestModel {
        proc: ProcModel::Id(RpcProcId::CursorUnprepare),
        params: seq![unprepare_param(handle)],
    }
}

/// Begin the call that releases a prepared statement.
pub(crate) fn start_unprepare(proc: RpcProcId, handle: PreparedHandle) -> (call: RpcExchange<'static>)
    ensures
        call@ == ExchangeModel::Flushing(
            RequestModel { proc: ProcModel::Id(proc), params: seq![unprepare_param(handle)] },
        ),
{
    let mut params: Vec<RpcParam<'static>> = Vec::new();
    params.push(build_unprepare_param(handle));
    assert(params_model(params@) =~= seq![unprepare_param(handle)]);
    RpcExchange::start(RpcRequest { proc: RpcProcIdValue::Id(proc), params })
}

/// How the columns of a prepared cursor are to be had.
#[derive(Debug)]
pub enum MetadataCall {
    /// They are known already.
    Known(Vec<Column>),
    /// A fetch of no rows has to bring them.
    Probe(RpcExchange<'static>),
}

/// The text of the error for a prepared cursor whose cursor is gone.
pub open spec fn already_closed_text() -> Seq<char> {
    "prepared cursor: cursor is already closed"@
}

impl PreparedCursor {
    #[verifier::type_invariant]
    closed spec fn inv(self) -> bool {
        self@.wf()
    }

    /// A statement and cursor that the server has just prepared and opened.
    pub(crate) fn opened(
        prepared_handle: PreparedHandle,
        cursor: Cursor,
        metadata: Option<Vec<Column>>,
    ) -> (prepared: Self)
        requires
            prepared_handle.spec_i32() != 0,
            cursor@.handle.spec_i32() != 0,
            !cursor@.closed,
        ensures
            prepared@ == (PreparedModel {
                prepared_handle,
                cursor: Some(cursor@),
                cursor_handle: cursor@.handle,
                scroll: cursor@.scroll,
                concurrency: cursor@.concurrency,
                row_count: cursor@.row_count,
                metadata: match metadata {
                    Some(metadata) => Some(metadata@),
                    None => None,
                },
                released: false,
            }),
    {
        PreparedCursor {
            prepared_handle,
            cursor_handle: cursor.handle(),
            scrollopt: cursor.scroll_options(),
            ccopt: cursor.concurrency_options(),
            row_count: cursor.row_count(),
            cursor: Some(cursor),
            metadata,
            released: false,
        }
    }

    /// The server-assigned prepared statement handle.
    pub fn prepared_handle(&self) -> (handle: PreparedHandle)
        ensures
            handle == self@.prepared_handle,
            handle.spec_i32() != 0,
    {
        proof {
            use_type_invariant(self);
        }
        self.prepared_handle
    }

    /// The server-assigned cursor handle.
    pub fn cursor_handle(&self) -> (handle: CursorHandle)
        ensures
            handle == self@.cursor_handle,
            self@.wf(),
    {
        proof {
            use_type_invariant(self);
        }
        self.cursor_handle
    }

    /// Negotiated scroll flags returned by the server.
    pub fn scroll_options(&self) -> (set: FlagSet<CursorScrollOptions>)
        ensures
            set == self@.scroll,
    {
        self.scrollopt
    }

    /// Negotiated concurrency flags returned by the server.
    pub fn concurrency_options(&self) -> (set: FlagSet<CursorConcurrencyOptions>)
        ensures
            set == self@.concurrency,
    {
        self.ccopt
    }

    /// Server-reported row count, or `-1` if unknown.
    pub fn row_count(&self) -> (count: i32)
        ensures
            count == self@.row_count,
    {
        self.row_count
    }

    /// The columns that the server sent when it opened the cursor.
    pub fn metadata(&self) -> (metadata: Option<&Vec<Column>>)
        ensures
            metadata is Some == self@.metadata is Some,
            metadata is Some ==> metadata->0@ == self@.metadata->0,
    {
        self.metadata.as_ref()
    }

    /// Whether giving this up now leaves the statement prepared on the server
    /// until the connection closes.
    pub fn leaks_on_drop(&self) -> (leaks: bool)
        ensures
            leaks == !self@.released,
    {
        !self.released
    }

    /// Whether giving this up now leaves the cursor open on the server until
    /// the connection closes.
    pub fn leaks_cursor_on_drop(&self) -> (leaks: bool)
        ensures
            leaks == self@.cursor is Some,
    {
        proof {
            use_type_invariant(self);
        }
        self.cursor.is_some()
    }

    /// Fetch rows from the opened cursor.
    pub fn fetch(&self, fetch: Fetch) -> (call: Result<RpcExchange<'static>, Error>)
        ensures
            call is Ok <==> self@.cursor is Some,
            call matches Ok(call) ==> call@ == ExchangeModel::Flushing(
                fetch_request(self@.cursor_handle, fetch),
            ),
            call matches Err(error) ==> error is Protocol && error.text() == already_closed_text(),
    {
        proof {
            use_type_invariant(self);
        }
        match &self.cursor {
            Some(cursor) => Ok(cursor.fetch(fetch)),
            None => Err(Error::protocol("prepared cursor: cursor is already closed")),
        }
    }

    /// Fetch only result-set metadata for this cursor without consuming rows.
    ///
    /// Where the columns are not known yet, the server is probed with
    /// `sp_cursorfetch @fetchtype = Next`, `@rownum = 0`, and `@nrows = 0`;
    /// the first non-empty `COLMETADATA` of the response has them.
    pub fn fetch_metadata(&self) -> (call: Result<MetadataCall, Error>)
        ensures
            call is Ok <==> self@.cursor is Some,
            call matches Ok(call) ==> match self@.metadata {
                Some(metadata) => call matches MetadataCall::Known(known) && known@ == metadata,
                None => call matches MetadataCall::Probe(probe) && probe@
                    == ExchangeModel::Flushing(
                    fetch_request(self@.cursor_handle, Fetch::Next { count: 0 }),
                ),
            },
            call matches Err(error) ==> error is Protocol && error.text() == already_closed_text(),
    {
        proof {
            use_type_invariant(self);
        }
        match &self.cursor {
            Some(cursor) => match &self.metadata {
                Some(metadata) => {
                    let known: Vec<Column> = metadata.clone();
                    assert(known@ =~= metadata@);
                    Ok(MetadataCall::Known(known))
                },
                None => Ok(MetadataCall::Probe(cursor.fetch(Fetch::Next { count: 0 }))),
            },
            None => Err(Error::protocol("prepared cursor: cursor is already closed")),
        }
    }

    /// Close the cursor if it is still open: the call that does so, or nothing
    /// if there is nothing to do.
    ///
    /// Once this has been called the cursor is gone from here, however the
    /// call ends.
    pub fn close_cursor(&mut self) -> (call: Option<CloseCall>)
        ensures
            match call {
                Some(call) => old(self)@.closing() == Some(call@),
                None => old(self)@.closing() is None,
            },
            final(self)@ == old(self)@.without_cursor(),
    {
        proof {
            use_type_invariant(&*self);
        }
        let mut cursor: Option<Cursor> = None;
        std::mem::swap(&mut cursor, &mut self.cursor);
        match cursor {
            Some(cursor) => Some(cursor.close()),
            None => None,
        }
    }

    /// Release the prepared handle, closing the cursor first if needed.
    pub fn unprepare(self) -> (call: UnprepareCall)
        ensures
            call@ == unprepare_call(self@),
    {
        let mut prepared = self;
        let phase = match prepared.close_cursor() {
            Some(call) => UnpreparePhase::Closing(call),
            None => UnpreparePhase::Releasing(
                start_unprepare(RpcProcId::CursorUnprepare, prepared.prepared_handle),
            ),
        };
        UnprepareCall { prepared, phase }
    }

    /// Close the cursor and release the prepared handle.
    pub fn close_and_unprepare(self) -> (call: UnprepareCall)
        ensures
            call@ == unprepare_call(self@),
    {
        self.unprepare()
    }
}

/// A call that releases a prepared statement is at one of two things.
#[derive(Debug)]
enum UnpreparePhase {
    Closing(CloseCall),
    Releasing(RpcExchange<'static>),
}

/// The releasing of a prepared cursor, in progress. Its first action is to
/// flush.
#[derive(Debug)]
pub struct UnprepareCall {
    prepared: PreparedCursor,
    phase: UnpreparePhase,
}

/// Which part of releasing a prepared cursor is going on.
pub enum PhaseModel {
    /// The cursor is being closed.
    Closing(CloseModel),
    /// The statement is being released.
    Releasing(ExchangeModel<'static>),
}

/// The progress of releasing a prepared cursor.
pub struct UnprepareModel {
    /// The statement, without its cursor.
    pub prepared: PreparedModel,
    /// What is going on.
    pub phase: PhaseModel,
}

impl View for UnprepareCall {
    type V = UnprepareModel;

    closed spec fn view(&self) -> UnprepareModel {
        UnprepareModel {
            prepared: self.prepared@,
            phase: match self.phase {
                UnpreparePhase::Closing(call) => PhaseModel::Closing(call@),
                UnpreparePhase::Releasing(call) => PhaseModel::Releasing(call@),
            },
        }
    }
}

/// The beginning of releasing a prepared cursor: an open cursor is closed
/// first.
pub open spec fn unprepare_call(prepared: PreparedModel) -> UnprepareModel {
    UnprepareModel {
        prepared: prepared.without_cursor(),
        phase: match prepared.closing() {
            Some(call) => PhaseModel::Closing(call),
            None => PhaseModel::Releasing(
                ExchangeModel::Flushing(unprepare_request(prepared.prepared_handle)),
            ),
        },
    }
}

impl UnprepareModel {
    /// Where the call stands after the connection did what was asked, well
    /// (`ok`) or not, and what comes next. The statement counts as released
    /// from the moment its request is out.
    pub open spec fn step(self, ok: bool) -> (UnprepareModel, ActionModel<'static>) {
        match self.phase {
            PhaseModel::Closing(call) => {
                let (call, action) = call.step(ok);
                if action is Finish {
                    let request = unprepare_request(self.prepared.prepared_handle);
                    (
                        UnprepareModel {
                            phase: PhaseModel::Releasing(ExchangeModel::Flushing(request)),
                            ..self
                        },
                        ActionModel::Flush,
                    )
                } else {
                    (UnprepareModel { phase: PhaseModel::Closing(call), ..self }, action)
                }
            },
            PhaseModel::Releasing(call) => {
                let released = self.prepared.released || (call is Sending && ok);
                let (call, action) = call.step(ok);
                (
                    UnprepareModel {
                        prepared: PreparedModel { released, ..self.prepared },
                        phase: PhaseModel::Releasing(call),
                    },
                    action,
                )
            },
        }
    }

    /// Where the call stands after a series of reports from the connection.
    pub open spec fn run(self, reports: Seq<bool>) -> UnprepareModel
        decreases reports.len(),
    {
        if reports.len() == 0 {
            self
        } else {
            self.step(reports[0]).0.run(reports.drop_first())
        }
    }

    /// The requests handed to the connection in a series of reports.
    pub open spec fn sent(self, reports: Seq<bool>) -> Seq<RequestModel<'static>>
        decreases reports.len(),
    {
        if reports.len() == 0 {
            Seq::empty()
        } else {
            let (next, action) = self.step(reports[0]);
            let rest = next.sent(reports.drop_first());
            match action {
                ActionModel::Send(request) => seq![request] + rest,
                _ => rest,
            }
        }
    }
}

impl UnprepareCall {
    #[verifier::type_invariant]
    closed spec fn inv(self) -> bool {
        self@.prepared.cursor is None
    }

    /// Take note of how the last action went, and say what comes next.
    pub fn step(self, ok: bool) -> (next: (Self, Action<'static>))
        ensures
            (next.0@, next.1@) == self@.step(ok),
    {
        proof {
            use_type_invariant(&self);
            use_type_invariant(&self.prepared);
        }
        let mut prepared = self.prepared;
        match self.phase {
            UnpreparePhase::Closing(call) => {
                let (call, action) = call.step(ok);
                match action {
                    Action::Finish => {
                        let release = start_unprepare(
                            RpcProcId::CursorUnprepare,
                            prepared.prepared_handle,
                        );
                        (
                            UnprepareCall { prepared, phase: UnpreparePhase::Releasing(release) },
                            Action::Flush,
                        )
                    },
                    action => (
                        UnprepareCall { prepared, phase: UnpreparePhase::Closing(call) },
                        action,
                    ),
                }
            },
            UnpreparePhase::Releasing(call) => {
                if call.is_sending() && ok {
                    prepared.released = true;
                }
                let (call, action) = call.step(ok);
                (UnprepareCall { prepared, phase: UnpreparePhase::Releasing(call) }, action)
            },
        }
    }

    /// The statement that is being released.
    pub fn prepared(&self) -> (prepared: &PreparedCursor)
        ensures
            prepared@ == self@.prepared,
    {
        &self.prepared
    }

    /// The cursor that is being closed, as long as that takes.
    pub fn closing(&self) -> (cursor: Option<&Cursor>)
        ensures
            match self@.phase {
                PhaseModel::Closing(call) => cursor matches Some(cursor) && cursor@ == call.cursor,
                PhaseModel::Releasing(_) => cursor is None,
            },
    {
        match &self.phase {
            UnpreparePhase::Closing(call) => Some(call.cursor()),
            UnpreparePhase::Releasing(_) => None,
        }
    }
}

/// The first `count` reports are there, and all say that it went well.
pub open spec fn all_well(reports: Seq<bool>, count: nat) -> bool {
    reports.len() >= count && forall|i: int| 0 <= i < count ==> #[trigger] reports[i]
}

/// While a statement is being released, the call is a plain exchange that
/// marks the statement once the request is out.
pub proof fn lemma_releasing(call: UnprepareModel, exchange: ExchangeModel<'static>, reports: Seq<bool>)
    requires
        call.phase == PhaseModel::Releasing(exchange),
    ensures
        call.run(reports).phase == PhaseModel::Releasing(exchange.run(reports)),
        call.sent(reports) == exchange.sent(reports),
        call.prepared.released ==> call.run(reports).prepared.released,
        !call.prepared.released ==> (call.run(reports).prepared.released <==> match exchange {
            ExchangeModel::Flushing(_) => all_well(reports, 2),
            ExchangeModel::Sending => all_well(reports, 1),
            _ => false,
        }),
    decreases reports.len(),
{
    if reports.len() > 0 {
        let rest = reports.drop_first();
        let (next, action) = call.step(reports[0]);
        lemma_releasing(next, exchange.step(reports[0]).0, rest);
        if rest.len() > 0 {
            assert(rest[0] == reports[1]);
        }
    }
}

/// A close that failed sends nothing more and releases nothing.
proof fn lemma_close_failed(call: UnprepareModel, reports: Seq<bool>)
    requires
        call.phase matches PhaseModel::Closing(close) && close.exchange is Failed,
    ensures
        call.run(reports) == call,
        call.sent(reports) == Seq::<RequestModel<'static>>::empty(),
    decreases reports.len(),
{
    if reports.len() > 0 {
        assert(call.step(reports[0]).0 == call);
        lemma_close_failed(call, reports.drop_first());
    }
}

/// Releasing a prepared cursor that is still open first closes the cursor:
/// the statement's own request goes out only after the close succeeded
/// entirely. The statement counts as released exactly when its request went
/// out, whatever happens while the response is read.
pub proof fn law_unprepare_closes_first(prepared: PreparedModel, reports: Seq<bool>)
    requires
        prepared.wf(),
        prepared.cursor is Some,
    ensures
        ({
            let start = unprepare_call(prepared);
            let close = crate::cursor::close_request(prepared.cursor_handle);
            let release = unprepare_request(prepared.prepared_handle);
            &&& start.sent(reports) == if all_well(reports, 4) {
                seq![close, release]
            } else if all_well(reports, 1) {
                seq![close]
            } else {
                Seq::empty()
            }
            &&& start.run(reports).prepared.released <==> all_well(reports, 5)
        }),
{
    let start = unprepare_call(prepared);
    let close = crate::cursor::close_request(prepared.cursor_handle);
    let release = unprepare_request(prepared.prepared_handle);
    reveal_with_fuel(UnprepareModel::run, 4);
    reveal_with_fuel(UnprepareModel::sent, 4);
    if reports.len() > 0 {
        let rest1 = reports.drop_first();
        let one = start.step(reports[0]).0;
        if !reports[0] {
            lemma_close_failed(one, rest1);
        } else if rest1.len() > 0 {
            assert(rest1[0] == reports[1]);
            let rest2 = rest1.drop_first();
            let two = one.step(rest1[0]).0;
            if !reports[1] {
                lemma_close_failed(two, rest2);
            } else if rest2.len() > 0 {
                assert(rest2[0] == reports[2]);
                let rest3 = rest2.drop_first();
                let three = two.step(rest2[0]).0;
                if !reports[2] {
                    lemma_close_failed(three, rest3);
                } else {
                    lemma_releasing(three, ExchangeModel::Flushing(release), rest3);
                    crate::rpc::law_exchange_outcome(release, rest3);
                    assert(forall|i: int| 0 <= i < rest3.len() ==> rest3[i] == reports[i + 3]);
                    if all_well(rest3, 2) {
                        assert forall|i: int| 0 <= i < 5 implies #[trigger] reports[i] by {
                            if i >= 3 {
                                assert(rest3[i - 3]);
                            }
                        }
                    }
                }
            }
        }
    }
    assert(start.sent(reports) =~= if all_well(reports, 4) {
        seq![close, release]
    } else if all_well(reports, 1) {
        seq![close]
    } else {
        Seq::empty()
    });
}

/// Releasing a prepared cursor that has been closed before sends one request
/// only, and releases the statement exactly when that went out.
pub proof fn law_unprepare_without_cursor(prepared: PreparedModel, reports: Seq<bool>)
    requires
        prepared.wf(),
        prepared.cursor is None,
        !prepared.released,
    ensures
        ({
            let start = unprepare_call(prepared);
            let release = unprepare_request(prepared.prepared_handle);
            &&& start.sent(reports) == if all_well(reports, 1) {
                seq![release]
            } else {
                Seq::empty()
            }
            &&& start.run(reports).prepared.released <==> all_well(reports, 2)
        }),
{
    let release = unprepare_request(prepared.prepared_handle);
    lemma_releasing(unprepare_call(prepared), ExchangeModel::Flushing(release), reports);
    crate::rpc::law_exchange_outcome(release, reports);
}

/// Nothing that a release call does breaks the statement's invariant, and the
/// statement's handles never change.
pub proof fn law_unprepare_keeps_the_statement(prepared: PreparedModel, reports: Seq<bool>)
    requires
        prepared.wf(),
    ensures
        ({
            let end = unprepare_call(prepared).run(reports).prepared;
            &&& end.wf()
            &&& end == PreparedModel { cursor: None, released: end.released, ..prepared }
        }),
{
    lemma_run_keeps_the_statement(unprepare_call(prepared), reports);
}

proof fn lemma_run_keeps_the_statement(call: UnprepareModel, reports: Seq<bool>)
    requires
        call.prepared.wf(),
        call.prepared.cursor is None,
    ensures
        ({
            let end = call.run(reports).prepared;
            &&& end.wf()
            &&& end == PreparedModel { released: end.released, ..call.prepared }
        }),
    decreases reports.len(),
{
    if reports.len() > 0 {
        lemma_run_keeps_the_statement(call.step(reports[0]).0, reports.drop_first());
    }
}

} // verus!
