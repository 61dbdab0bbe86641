//! Laws of what the calls ask of the connection, step by step.
use crate::cursor::{close_call, fetch_request, CursorHandle, CursorModel, Fetch};
use crate::direct::{direct_unprepare_call, DirectModel};
use crate::laws::requests::{
    is_integer, law_close_request, law_direct_unprepare_request, law_fetch_request,
    law_procedure_call, law_unprepare_request,
};
use crate::prepared::{
    already_closed_text, unprepare_call, PhaseModel, PreparedModel, UnprepareModel,
};
use crate::procedure::{procedure_request, ProcedureParameter};
use crate::rpc::{
    Action, ActionModel, ExchangeModel, RequestModel, RpcExchange, RpcProcId, RpcProcIdValue,
};
use crate::types::PreparedHandle;
use vstd::prelude::*;

verus! {

/// The action is to send a request to a system procedure, with one integer and
/// nothing else.
pub open spec fn sends_integer(action: Action<'static>, id: RpcProcId, value: i32) -> bool {
    match action {
        Action::Send(request) => {
            &&& request.proc == RpcProcIdValue::<'static>::Id(id)
            &&& request.params@.len() == 1
            &&& is_integer(request.params@[0], false, value)
        },
        _ => false,
    }
}

/// An action says what it is.
pub proof fn law_actions_say_what_they_are<'a>(action: Action<'a>)
    ensures
        action is Flush <==> action@ is Flush,
        action is Receive <==> action@ is Receive,
        action is Finish <==> action@ is Finish,
        action is Abort <==> action@ is Abort,
        action is Send <==> action@ is Send,
        action matches Action::Send(request) ==> action@ == ActionModel::Send(request@),
{
}

/// A call is at what it says it is at.
pub proof fn law_exchanges_say_where_they_are<'a>(exchange: RpcExchange<'a>)
    ensures
        exchange is Sending <==> exchange@ is Sending,
        exchange is Receiving <==> exchange@ is Receiving,
        exchange is Done <==> exchange@ is Done,
        exchange is Failed <==> exchange@ is Failed,
        exchange matches RpcExchange::Flushing(request) ==> exchange@ == ExchangeModel::Flushing(
            request@,
        ),
{
}

/// After the flush a call sends its own request, then reads the response, and
/// then is complete. It ends at once with whatever goes wrong, and does nothing
/// more once it is over.
pub proof fn law_exchange_order<'a>(request: RequestModel<'a>, ok: bool)
    ensures
        ({
            let flushing = ExchangeModel::Flushing(request);
            let (sending, first) = flushing.step(true);
            let (receiving, second) = sending.step(true);
            let (done, third) = receiving.step(true);
            &&& first == ActionModel::Send(request)
            &&& second is Receive
            &&& third is Finish
            &&& sending is Sending
            &&& receiving is Receiving
            &&& done is Done
            &&& done.step(ok).0 is Done && done.step(ok).1 is Finish
            &&& flushing.step(false).0 is Failed && flushing.step(false).1 is Abort
            &&& sending.step(false).0 is Failed && sending.step(false).1 is Abort
            &&& receiving.step(false).0 is Failed && receiving.step(false).1 is Abort
            &&& flushing.step(false).0.step(ok).0 is Failed
            &&& flushing.step(false).0.step(ok).1 is Abort
        }),
{
}

/// A fetch sends the four integers of the fetch to `sp_cursorfetch`.
pub proof fn law_fetch_call(handle: CursorHandle, fetch: Fetch, action: Action<'static>)
    requires
        action@ == ExchangeModel::Flushing(fetch_request(handle, fetch)).step(true).1,
    ensures
        action matches Action::Send(request) && {
            &&& request.proc == RpcProcIdValue::<'static>::Id(RpcProcId::CursorFetch)
            &&& request.params@.len() == 4
            &&& is_integer(request.params@[0], false, handle.spec_i32())
            &&& is_integer(request.params@[1], false, fetch.spec_encode().0)
            &&& is_integer(request.params@[2], false, fetch.spec_encode().1)
            &&& is_integer(request.params@[3], false, fetch.spec_encode().2)
        },
{
    if let Action::Send(request) = action {
        law_fetch_request(handle, fetch, request);
    }
}

/// A procedure call sends the name and the parameters that were given.
pub proof fn law_procedure_call_sends<'a>(
    proc: Seq<char>,
    parameters: Seq<ProcedureParameter<'a>>,
    action: Action<'a>,
)
    requires
        action@ == ExchangeModel::Flushing(procedure_request(proc, parameters)).step(true).1,
    ensures
        action matches Action::Send(request) && {
            &&& request.proc matches RpcProcIdValue::Name(name) && name@ == proc
            &&& request.params@.len() == parameters.len()
            &&& forall|i: int|
                0 <= i < parameters.len() ==> (#[trigger] request.params@[i]).value
                    == parameters[i]@.value
        },
{
    if let Action::Send(request) = action {
        law_procedure_call(proc, parameters, request);
    }
}

/// Closing a cursor sends `sp_cursorclose` with the cursor's own handle, reads
/// the response and is complete; what goes wrong ends it. The cursor counts as
/// closed from the moment that the request is out, and nothing else of it
/// changes.
pub proof fn law_close_call(cursor: CursorModel, action: Action<'static>, ok: bool)
    requires
        action@ == close_call(cursor).step(true).1,
    ensures
        sends_integer(action, RpcProcId::CursorClose, cursor.handle.spec_i32()),
        ({
            let start = close_call(cursor);
            let one = start.step(true).0;
            let (two, second) = one.step(true);
            let (three, third) = two.step(true);
            &&& start.cursor == cursor
            &&& one.cursor == cursor
            &&& second is Receive
            &&& two.cursor == CursorModel { closed: true, ..cursor }
            &&& third is Finish
            &&& three.cursor == two.cursor
            &&& start.step(false).1 is Abort && start.step(false).0.cursor == cursor
            &&& one.step(false).1 is Abort && one.step(false).0.cursor == cursor
            &&& two.step(false).1 is Abort && two.step(false).0.cursor == two.cursor
            &&& three.step(ok).1 is Finish && three.step(ok).0.cursor == two.cursor
            &&& start.step(false).0.step(ok).1 is Abort
            &&& one.step(false).0.step(ok).1 is Abort
            &&& two.step(false).0.step(ok).1 is Abort
        }),
{
    if let Action::Send(request) = action {
        law_close_request(cursor.handle, request);
    }
}

/// Releasing a directly executed statement sends `sp_unprepare` with its own
/// handle, reads the response and is complete; what goes wrong ends it. The
/// statement counts as released from the moment that the request is out, and
/// nothing else of it changes.
pub proof fn law_direct_unprepare_call(direct: DirectModel, action: Action<'static>, ok: bool)
    requires
        action@ == direct_unprepare_call(direct).step(true).1,
    ensures
        sends_integer(action, RpcProcId::Unprepare, direct.prepared_handle.spec_i32()),
        ({
            let start = direct_unprepare_call(direct);
            let one = start.step(true).0;
            let (two, second) = one.step(true);
            let (three, third) = two.step(true);
            &&& start.direct == direct
            &&& one.direct == direct
            &&& second is Receive
            &&& two.direct == DirectModel { released: true, ..direct }
            &&& third is Finish
            &&& three.direct == two.direct
            &&& three.exchange is Done
            &&& !(start.exchange is Done) && !(one.exchange is Done) && !(two.exchange is Done)
            &&& start.step(false).1 is Abort && start.step(false).0.direct == direct
            &&& one.step(false).1 is Abort && one.step(false).0.direct == direct
            &&& two.step(false).1 is Abort && two.step(false).0.direct == two.direct
            &&& two.step(false).0.exchange is Failed
            &&& three.step(ok).1 is Finish && three.step(ok).0.direct == two.direct
            &&& start.step(false).0.step(ok).1 is Abort
        }),
{
    if let Action::Send(request) = action {
        law_direct_unprepare_request(direct.prepared_handle, request);
    }
}

/// Once its cursor has been taken to be closed, a prepared cursor has none, and
/// all else of it is as it was.
pub proof fn law_cursor_is_taken(prepared: PreparedModel)
    ensures
        prepared.without_cursor().cursor is None,
        prepared.without_cursor().prepared_handle == prepared.prepared_handle,
        prepared.without_cursor().cursor_handle == prepared.cursor_handle,
        prepared.without_cursor().scroll == prepared.scroll,
        prepared.without_cursor().concurrency == prepared.concurrency,
        prepared.without_cursor().row_count == prepared.row_count,
        prepared.without_cursor().metadata == prepared.metadata,
        prepared.without_cursor().released == prepared.released,
        prepared.closing() is Some <==> prepared.cursor is Some,
        prepared.cursor matches Some(cursor) ==> prepared.closing() == Some(close_call(cursor)),
{
}

/// A prepared cursor without a cursor says so when it is asked for rows.
pub proof fn law_closed_text()
    ensures
        already_closed_text() == "prepared cursor: cursor is already closed"@,
{
}

/// A statement that is being released: it sends `sp_cursorunprepare` with its
/// own handle, reads the response and is complete; what goes wrong ends it. It
/// counts as released from the moment that the request is out.
pub open spec fn releases(call: UnprepareModel, handle: PreparedHandle, ok: bool) -> bool {
    let (one, first) = call.step(true);
    let (two, second) = one.step(true);
    let (three, third) = two.step(true);
    &&& forall|action: Action<'static>|
        (#[trigger] action@) == first ==> sends_integer(
            action,
            RpcProcId::CursorUnprepare,
            handle.spec_i32(),
        )
    &&& second is Receive
    &&& third is Finish
    &&& one.prepared == call.prepared
    &&& two.prepared == PreparedModel { released: true, ..call.prepared }
    &&& three.prepared == two.prepared
    &&& call.step(false).1 is Abort && call.step(false).0.prepared == call.prepared
    &&& one.step(false).1 is Abort && one.step(false).0.prepared == call.prepared
    &&& two.step(false).1 is Abort && two.step(false).0.prepared == two.prepared
    &&& three.step(ok).1 is Finish && three.step(ok).0.prepared == two.prepared
    &&& call.step(false).0.step(ok).1 is Abort
    &&& one.step(false).0.step(ok).1 is Abort
    &&& two.step(false).0.step(ok).1 is Abort
}

proof fn lemma_releases(call: UnprepareModel, handle: PreparedHandle, ok: bool)
    requires
        call.phase == PhaseModel::Releasing(
            ExchangeModel::Flushing(crate::prepared::unprepare_request(handle)),
        ),
    ensures
        releases(call, handle, ok),
{
    assert forall|action: Action<'static>|
        (#[trigger] action@) == call.step(true).1 implies sends_integer(
        action,
        RpcProcId::CursorUnprepare,
        handle.spec_i32(),
    ) by {
        if let Action::Send(request) = action {
            law_unprepare_request(handle, request);
        }
    }
}

/// Releasing a prepared cursor without a cursor just releases the statement.
pub proof fn law_unprepare_call_without_cursor(prepared: PreparedModel, ok: bool)
    requires
        prepared.cursor is None,
    ensures
        unprepare_call(prepared).prepared == prepared,
        releases(unprepare_call(prepared), prepared.prepared_handle, ok),
{
    lemma_releases(unprepare_call(prepared), prepared.prepared_handle, ok);
}

/// Releasing a prepared cursor with a cursor first closes that cursor, by its
/// own handle. Where the close goes wrong, the statement is not released and
/// nothing more is sent. Where it is complete, the connection is flushed again
/// and the statement is released.
pub proof fn law_unprepare_call_with_cursor(
    prepared: PreparedModel,
    cursor: CursorModel,
    action: Action<'static>,
    ok: bool,
)
    requires
        prepared.cursor == Some(cursor),
        action@ == unprepare_call(prepared).step(true).1,
    ensures
        sends_integer(action, RpcProcId::CursorClose, cursor.handle.spec_i32()),
        ({
            let start = unprepare_call(prepared);
            let one = start.step(true).0;
            let (two, second) = one.step(true);
            let (three, third) = two.step(true);
            &&& start.prepared == prepared.without_cursor()
            &&& one.prepared == start.prepared && two.prepared == start.prepared
            &&& three.prepared == start.prepared
            &&& start.phase matches PhaseModel::Closing(close) && close.cursor == cursor
            &&& one.phase matches PhaseModel::Closing(close) && close.cursor == cursor
            &&& second is Receive
            &&& two.phase matches PhaseModel::Closing(close) && close.cursor == (CursorModel {
                closed: true,
                ..cursor
            })
            &&& third is Flush
            &&& releases(three, prepared.prepared_handle, ok)
            &&& start.step(false).1 is Abort && start.step(false).0.step(ok).1 is Abort
            &&& one.step(false).1 is Abort && one.step(false).0.step(ok).1 is Abort
            &&& two.step(false).1 is Abort && two.step(false).0.step(ok).1 is Abort
            &&& start.step(false).0.prepared == start.prepared
            &&& one.step(false).0.prepared == start.prepared
            &&& two.step(false).0.prepared == start.prepared
            &&& two.step(false).0.step(ok).0.prepared == start.prepared
        }),
{
    if let Action::Send(request) = action {
        law_close_request(cursor.handle, request);
    }
    let three = unprepare_call(prepared).step(true).0.step(true).0.step(true).0;
    lemma_releases(three, prepared.prepared_handle, ok);
}

} // verus!
