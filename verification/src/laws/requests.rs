//! Laws of the requests that are sent.
use crate::cursor::{close_request, fetch_request, CursorHandle, Fetch};
use crate::direct::direct_unprepare_request;
use crate::laws::values::same_bits;
use crate::options::CursorOpenOptions;
use crate::params::{
    cursorfetch_params, cursoropen_params, cursorprepexec_params, unprepare_param,
};
use crate::prepared::unprepare_request;
use crate::procedure::{procedure_request, ProcedureParameter, ProcedureParameterModel};
use crate::rpc::{
    by_ref_param, in_param, named_param, params_model, RpcParam, RpcProcId, RpcProcIdValue,
    RpcRequest, RpcStatus,
};
use crate::text::{bound_name, decimal};
use crate::types::{ColumnData, PreparedHandle};
use std::borrow::Cow;
use vstd::prelude::*;

verus! {

/// A parameter without a name or a declared type.
pub open spec fn is_unnamed<'a>(param: RpcParam<'a>, by_ref: bool, value: ColumnData<'a>) -> bool {
    &&& param.name@.len() == 0
    &&& param.flags@.contains(RpcStatus::ByRefValue) == by_ref
    &&& param.type_info is None
    &&& param.value == value
}

/// An integer parameter without a name or a declared type.
pub open spec fn is_integer<'a>(param: RpcParam<'a>, by_ref: bool, value: i32) -> bool {
    is_unnamed(param, by_ref, ColumnData::I32(Some(value)))
}

/// The set of flags as the integer with the same bits, to be replaced by the
/// server.
pub open spec fn is_options<'a>(param: RpcParam<'a>, word: u32) -> bool {
    &&& param.name@.len() == 0
    &&& param.flags@.contains(RpcStatus::ByRefValue)
    &&& param.type_info is None
    &&& param.value matches ColumnData::I32(Some(value)) && same_bits(word, value)
}

/// The bound value at `index`: an input that is named `@P` and the place of
/// the value, counted from one.
pub open spec fn is_bound<'a>(param: RpcParam<'a>, index: int, value: ColumnData<'a>) -> bool {
    &&& param.name@ == seq!['@', 'P'] + decimal((index + 1) as nat)
    &&& !param.flags@.contains(RpcStatus::ByRefValue)
    &&& param.type_info is None
    &&& param.value == value
}

/// What each parameter says is what the list says at its place.
proof fn lemma_places<'a>(params: Seq<RpcParam<'a>>)
    ensures
        params_model(params).len() == params.len(),
        forall|i: int|
            0 <= i < params.len() ==> (#[trigger] params[i])@ == params_model(params)[i],
{
}

/// A fetch sends four integers: the handle, the code of its direction, the row
/// number or offset where it has one and zero where it has none, and the number
/// of rows.
pub proof fn law_fetch_sends(handle: CursorHandle, fetch: Fetch, params: Seq<RpcParam<'static>>)
    requires
        params_model(params) == cursorfetch_params(handle, fetch),
    ensures
        params.len() == 4,
        is_integer(params[0], false, handle.spec_i32()),
        match fetch {
            Fetch::First { count } => {
                &&& is_integer(params[1], false, 1)
                &&& is_integer(params[2], false, 0)
                &&& is_integer(params[3], false, count)
            },
            Fetch::Next { count } => {
                &&& is_integer(params[1], false, 2)
                &&& is_integer(params[2], false, 0)
                &&& is_integer(params[3], false, count)
            },
            Fetch::Prev { count } => {
                &&& is_integer(params[1], false, 4)
                &&& is_integer(params[2], false, 0)
                &&& is_integer(params[3], false, count)
            },
            Fetch::Last { count } => {
                &&& is_integer(params[1], false, 8)
                &&& is_integer(params[2], false, 0)
                &&& is_integer(params[3], false, count)
            },
            Fetch::Absolute { row, count } => {
                &&& is_integer(params[1], false, 16)
                &&& is_integer(params[2], false, row)
                &&& is_integer(params[3], false, count)
            },
            Fetch::Relative { offset, count } => {
                &&& is_integer(params[1], false, 32)
                &&& is_integer(params[2], false, offset)
                &&& is_integer(params[3], false, count)
            },
            Fetch::Refresh { count } => {
                &&& is_integer(params[1], false, 128)
                &&& is_integer(params[2], false, 0)
                &&& is_integer(params[3], false, count)
            },
        },
{
    lemma_places(params);
}

/// The three numbers of a fetch are what it sends after the handle, unchanged.
pub proof fn law_fetch_sends_its_encoding(
    handle: CursorHandle,
    fetch: Fetch,
    params: Seq<RpcParam<'static>>,
)
    requires
        params_model(params) == cursorfetch_params(handle, fetch),
    ensures
        params.len() == 4,
        params[1].value == ColumnData::<'static>::I32(Some(fetch.spec_encode().0)),
        params[2].value == ColumnData::<'static>::I32(Some(fetch.spec_encode().1)),
        params[3].value == ColumnData::<'static>::I32(Some(fetch.spec_encode().2)),
{
    lemma_places(params);
}

/// Different fetches, or fetches from different cursors, send different
/// parameters.
pub proof fn law_fetches_send_different_parameters(
    a: CursorHandle,
    b: CursorHandle,
    x: Fetch,
    y: Fetch,
)
    requires
        cursorfetch_params(a, x) == cursorfetch_params(b, y),
    ensures
        a == b,
        x == y,
{
    let p = cursorfetch_params(a, x);
    let q = cursorfetch_params(b, y);
    assert(p[0].value == q[0].value && p[1].value == q[1].value);
    assert(p[2].value == q[2].value && p[3].value == q[3].value);
    CursorHandle::lemma_same_value(a, b);
}

/// A fetch goes to `sp_cursorfetch`, with the four integers of the fetch.
pub proof fn law_fetch_request(handle: CursorHandle, fetch: Fetch, request: RpcRequest<'static>)
    requires
        request@ == fetch_request(handle, fetch),
    ensures
        request.proc == RpcProcIdValue::<'static>::Id(RpcProcId::CursorFetch),
        request.params@.len() == 4,
        is_integer(request.params@[0], false, handle.spec_i32()),
        is_integer(request.params@[1], false, fetch.spec_encode().0),
        is_integer(request.params@[2], false, fetch.spec_encode().1),
        is_integer(request.params@[3], false, fetch.spec_encode().2),
{
    law_fetch_sends(handle, fetch, request.params@);
}

/// Closing a cursor sends `sp_cursorclose` with its handle, and nothing else.
pub proof fn law_close_request(handle: CursorHandle, request: RpcRequest<'static>)
    requires
        request@ == close_request(handle),
    ensures
        request.proc == RpcProcIdValue::<'static>::Id(RpcProcId::CursorClose),
        request.params@.len() == 1,
        is_integer(request.params@[0], false, handle.spec_i32()),
{
    lemma_places(request.params@);
}

/// Releasing the statement of a prepared cursor sends `sp_cursorunprepare` with
/// its handle, and nothing else.
pub proof fn law_unprepare_request(handle: PreparedHandle, request: RpcRequest<'static>)
    requires
        request@ == unprepare_request(handle),
    ensures
        request.proc == RpcProcIdValue::<'static>::Id(RpcProcId::CursorUnprepare),
        request.params@.len() == 1,
        is_integer(request.params@[0], false, handle.spec_i32()),
{
    lemma_places(request.params@);
}

/// Releasing a directly executed statement sends `sp_unprepare` with its
/// handle, and nothing else.
pub proof fn law_direct_unprepare_request(handle: PreparedHandle, request: RpcRequest<'static>)
    requires
        request@ == direct_unprepare_request(handle),
    ensures
        request.proc == RpcProcIdValue::<'static>::Id(RpcProcId::Unprepare),
        request.params@.len() == 1,
        is_integer(request.params@[0], false, handle.spec_i32()),
{
    lemma_places(request.params@);
}

/// The parameter that releases a statement is its handle.
pub proof fn law_unprepare_parameter(handle: PreparedHandle, param: RpcParam<'static>)
    requires
        param@ == unprepare_param(handle),
    ensures
        is_integer(param, false, handle.spec_i32()),
{
}

/// `sp_cursoropen` gets a zero for the cursor, the statement, the requested
/// options and a zero for the row count. All but the statement come back. A
/// statement with parameters also sends their definitions, and each bound value
/// as it is, in its place.
pub proof fn law_cursoropen_sends<'a>(
    sql: Cow<'a, str>,
    options: CursorOpenOptions,
    param_defs: Cow<'a, str>,
    values: Seq<ColumnData<'a>>,
    params: Seq<RpcParam<'a>>,
)
    requires
        params_model(params) == cursoropen_params(sql, options, param_defs, values),
    ensures
        params.len() == if param_defs@.len() == 0 {
            5
        } else {
            6 + values.len()
        },
        is_integer(params[0], true, 0),
        is_unnamed(params[1], false, ColumnData::String(Some(sql))),
        is_options(params[2], options.spec_scroll().spec_bits()),
        is_options(params[3], options.spec_concurrency().spec_bits()),
        is_integer(params[4], true, 0),
        param_defs@.len() > 0 ==> is_unnamed(
            params[5],
            false,
            ColumnData::String(Some(param_defs)),
        ),
        param_defs@.len() > 0 ==> forall|i: int|
            0 <= i < values.len() ==> is_bound(#[trigger] params[6 + i], i, values[i]),
{
    lemma_places(params);
    if param_defs@.len() > 0 {
        assert forall|i: int| 0 <= i < values.len() implies is_bound(
            #[trigger] params[6 + i],
            i,
            values[i],
        ) by {
            assert(params[6 + i]@ == params_model(params)[6 + i]);
        }
    }
}

/// `sp_cursorprepexec` gets zeros for the two handles, the definitions of the
/// parameters or `NULL` where there are none, the statement, the requested
/// options and a zero for the row count. The handles, options and row count come
/// back. Each bound value is sent as it is, in its place.
pub proof fn law_cursorprepexec_sends<'a>(
    sql: Cow<'a, str>,
    options: CursorOpenOptions,
    param_defs: Cow<'a, str>,
    values: Seq<ColumnData<'a>>,
    params: Seq<RpcParam<'a>>,
)
    requires
        params_model(params) == cursorprepexec_params(sql, options, param_defs, values),
    ensures
        params.len() == 7 + values.len(),
        is_integer(params[0], true, 0),
        is_integer(params[1], true, 0),
        param_defs@.len() == 0 ==> is_unnamed(params[2], false, ColumnData::String(None)),
        param_defs@.len() > 0 ==> is_unnamed(
            params[2],
            false,
            ColumnData::String(Some(param_defs)),
        ),
        is_unnamed(params[3], false, ColumnData::String(Some(sql))),
        is_options(params[4], options.spec_scroll().spec_bits()),
        is_options(params[5], options.spec_concurrency().spec_bits()),
        is_integer(params[6], true, 0),
        forall|i: int| 0 <= i < values.len() ==> is_bound(#[trigger] params[7 + i], i, values[i]),
{
    lemma_places(params);
    assert forall|i: int| 0 <= i < values.len() implies is_bound(
        #[trigger] params[7 + i],
        i,
        values[i],
    ) by {
        assert(params[7 + i]@ == params_model(params)[7 + i]);
    }
}

/// A procedure parameter becomes a request parameter with its own name, or none
/// if it has none, its own type and its own value, which the server replaces
/// unless the parameter is input only.
pub proof fn law_procedure_parameter<'a>(model: ProcedureParameterModel<'a>, param: RpcParam<'a>)
    requires
        param@ == model.rpc_param(),
    ensures
        model.name matches Some(name) ==> param.name@ == name,
        model.name is None ==> param.name@.len() == 0,
        param.flags@.contains(RpcStatus::ByRefValue) <==> (model.direction
            is Output || model.direction is InputOutput),
        param.type_info == Some(model.type_info),
        param.value == model.value,
{
}

/// A procedure call names the procedure that was asked for, and sends one
/// request parameter for each procedure parameter, each in its place with its
/// own name, direction, type and value.
pub proof fn law_procedure_call<'a>(
    proc: Seq<char>,
    parameters: Seq<ProcedureParameter<'a>>,
    request: RpcRequest<'a>,
)
    requires
        request@ == procedure_request(proc, parameters),
    ensures
        request.proc matches RpcProcIdValue::Name(name) && name@ == proc,
        request.params@.len() == parameters.len(),
        forall|i: int|
            0 <= i < parameters.len() ==> {
                let sent = #[trigger] request.params@[i];
                let model = parameters[i]@;
                &&& model.name matches Some(name) ==> sent.name@ == name
                &&& model.name is None ==> sent.name@.len() == 0
                &&& sent.flags@.contains(RpcStatus::ByRefValue) <==> (model.direction
                    is Output || model.direction is InputOutput)
                &&& sent.type_info == Some(model.type_info)
                &&& sent.value == model.value
            },
{
    lemma_places(request.params@);
    assert forall|i: int| 0 <= i < parameters.len() implies (#[trigger] request.params@[i])@
        == parameters[i]@.rpc_param() by {}
}

/// An input parameter has its value and nothing else; one that the server
/// replaces also has the status bit, and a named one the name.
pub proof fn law_plain_parameters<'a>(
    value: ColumnData<'a>,
    name: Seq<char>,
    a: RpcParam<'a>,
    b: RpcParam<'a>,
    c: RpcParam<'a>,
)
    requires
        a@ == in_param(value),
        b@ == by_ref_param(value),
        c@ == named_param(name, value),
    ensures
        is_unnamed(a, false, value),
        is_unnamed(b, true, value),
        c.name@ == name,
        !c.flags@.contains(RpcStatus::ByRefValue),
        c.type_info is None,
        c.value == value,
{
}

/// The name of a bound parameter is `@P` and its place, counted from one.
pub proof fn law_bound_name(index: nat)
    ensures
        bound_name(index) == seq!['@', 'P'] + decimal(index + 1),
{
}

} // verus!
