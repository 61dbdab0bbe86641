//! The parameter lists of the cursor procedures.
use crate::cursor::{CursorHandle, Fetch};
use crate::options::{flags_to_i32, word_to_signed, CursorOpenOptions};
use crate::rpc::{by_ref_param, in_param, named_param, params_model, ParamModel, RpcParam};
use crate::text::{bound_name, bound_parameter_name};
use crate::types::{ColumnData, PreparedHandle};
use std::borrow::Cow;
use vstd::prelude::*;

verus! {

/// The parameters of `sp_cursorfetch`: the cursor, then the fetch type, row
/// number and row count of the request.
pub open spec fn cursorfetch_params(handle: CursorHandle, fetch: Fetch) -> Seq<
    ParamModel<'static>,
> {
    let (fetch_bits, row_num, count) = fetch.spec_encode();
    seq![
        in_param(ColumnData::I32(Some(handle.spec_i32()))),
        in_param(ColumnData::I32(Some(fetch_bits))),
        in_param(ColumnData::I32(Some(row_num))),
        in_param(ColumnData::I32(Some(count))),
    ]
}

/// Build the parameter list of `sp_cursorfetch`.
pub fn build_cursorfetch_params(handle: CursorHandle, fetch: Fetch) -> (params: Vec<
    RpcParam<'static>,
>)
    ensures
        params_model(params@) == cursorfetch_params(handle, fetch),
{
    let (fetch_bits, row_num, count) = fetch.encode();
    let mut params: Vec<RpcParam<'static>> = Vec::new();
    params.push(RpcParam::input(ColumnData::I32(Some(handle.as_i32()))));
    params.push(RpcParam::input(ColumnData::I32(Some(fetch_bits))));
    params.push(RpcParam::input(ColumnData::I32(Some(row_num))));
    params.push(RpcParam::input(ColumnData::I32(Some(count))));
    assert(params_model(params@) =~= cursorfetch_params(handle, fetch));
    params
}

/// Bound values, named `@P1`, `@P2` and so on in their order.
pub open spec fn bound_params<'a>(values: Seq<ColumnData<'a>>) -> Seq<ParamModel<'a>> {
    Seq::new(values.len(), |i: int| named_param(bound_name(i as nat), values[i]))
}

/// Append the bound values to a parameter list.
fn push_bound_params<'a>(params: &mut Vec<RpcParam<'a>>, values: Vec<ColumnData<'a>>)
    ensures
        params_model(final(params)@) == params_model(old(params)@) + bound_params(values@),
{
    let ghost before = params_model(params@);
    let ghost all = values@;
    let count: usize = values.len();
    let mut index: usize = 0;
    assert(params_model(params@) =~= before + bound_params(all.take(0)));
    for value in it: values
        invariant
            it.seq() == all,
            all.len() == count,
            index == it.index(),
            params_model(params@) == before + bound_params(all.take(index as int)),
    {
        assert(value == all[index as int]);
        let name: String = bound_parameter_name(index);
        let ghost so_far = params@;
        params.push(RpcParam::named(name, value));
        assert(params_model(params@) =~= params_model(so_far).push(
            named_param(bound_name(index as nat), value),
        ));
        assert(all.take(index + 1) =~= all.take(index as int).push(value));
        assert(params_model(params@) =~= before + bound_params(all.take(index + 1)));
        index = index + 1;
    }
    assert(all.take(all.len() as int) =~= all);
}

/// Whether a text is empty.
fn is_empty_text(text: &Cow<'_, str>) -> (empty: bool)
    ensures
        empty == (text@.len() == 0),
{
    match text {
        Cow::Borrowed(text) => text.is_empty(),
        Cow::Owned(text) => text.as_str().is_empty(),
    }
}

/// The parameters of `sp_cursoropen`:
/// `[@cursor OUT, @stmt, @scrollopt OUT, @ccopt OUT, @rowcount OUT,
///   @params, @P1, @P2, ...]`.
///
/// A statement without parameters sends neither `@params` nor bound values.
pub open spec fn cursoropen_params<'a>(
    sql: Cow<'a, str>,
    options: CursorOpenOptions,
    param_defs: Cow<'a, str>,
    values: Seq<ColumnData<'a>>,
) -> Seq<ParamModel<'a>> {
    let fixed = seq![
        by_ref_param(ColumnData::I32(Some(0))),
        in_param(ColumnData::String(Some(sql))),
        by_ref_param(scroll_value(options)),
        by_ref_param(concurrency_value(options)),
        by_ref_param(ColumnData::I32(Some(0))),
    ];
    if param_defs@.len() == 0 {
        fixed
    } else {
        fixed.push(in_param(ColumnData::String(Some(param_defs)))) + bound_params(values)
    }
}

/// The requested scroll flags as the integer that is sent.
pub open spec fn scroll_value<'a>(options: CursorOpenOptions) -> ColumnData<'a> {
    ColumnData::I32(Some(word_to_signed(options.spec_scroll().spec_bits()) as i32))
}

/// The requested concurrency flags as the integer that is sent.
pub open spec fn concurrency_value<'a>(options: CursorOpenOptions) -> ColumnData<'a> {
    ColumnData::I32(Some(word_to_signed(options.spec_concurrency().spec_bits()) as i32))
}

/// Build the parameter list of `sp_cursoropen`.
///
/// The scroll and concurrency options are sent as requested, and come back in
/// the same parameters as negotiated. `@params` and the bound values are sent
/// only when the statement has parameters: an empty `@params` trips the
/// server's parser inside `sp_cursoropen`.
pub fn build_cursoropen_params<'a>(
    sql: Cow<'a, str>,
    options: CursorOpenOptions,
    param_defs: Cow<'a, str>,
    values: Vec<ColumnData<'a>>,
) -> (params: Vec<RpcParam<'a>>)
    ensures
        params_model(params@) == cursoropen_params(sql, options, param_defs, values@),
{
    let mut params: Vec<RpcParam<'a>> = Vec::new();
    params.push(RpcParam::by_ref(ColumnData::I32(Some(0))));
    params.push(RpcParam::input(ColumnData::String(Some(sql))));
    params.push(RpcParam::by_ref(ColumnData::I32(Some(flags_to_i32(options.scroll().bits())))));
    params.push(
        RpcParam::by_ref(ColumnData::I32(Some(flags_to_i32(options.concurrency().bits())))),
    );
    params.push(RpcParam::by_ref(ColumnData::I32(Some(0))));
    if !is_empty_text(&param_defs) {
        params.push(RpcParam::input(ColumnData::String(Some(param_defs))));
        push_bound_params(&mut params, values);
    }
    assert(params_model(params@) =~= cursoropen_params(sql, options, param_defs, values@));
    params
}

/// The parameters of `sp_cursorprepexec`:
/// `[@prepared_handle OUT, @cursor OUT, @params, @stmt, @scrollopt OUT,
///   @ccopt OUT, @rowcount OUT, @P1, @P2, ...]`.
///
/// A statement without parameters sends `NULL` for `@params`.
pub open spec fn cursorprepexec_params<'a>(
    sql: Cow<'a, str>,
    options: CursorOpenOptions,
    param_defs: Cow<'a, str>,
    values: Seq<ColumnData<'a>>,
) -> Seq<ParamModel<'a>> {
    seq![
        by_ref_param(ColumnData::I32(Some(0))),
        by_ref_param(ColumnData::I32(Some(0))),
        in_param(
            ColumnData::String(
                if param_defs@.len() == 0 {
                    None
                } else {
                    Some(param_defs)
                },
            ),
        ),
        in_param(ColumnData::String(Some(sql))),
        by_ref_param(scroll_value(options)),
        by_ref_param(concurrency_value(options)),
        by_ref_param(ColumnData::I32(Some(0))),
    ] + bound_params(values)
}

/// Build the parameter list of `sp_cursorprepexec`.
pub fn build_cursorprepexec_params<'a>(
    sql: Cow<'a, str>,
    options: CursorOpenOptions,
    param_defs: Cow<'a, str>,
    values: Vec<ColumnData<'a>>,
) -> (params: Vec<RpcParam<'a>>)
    ensures
        params_model(params@) == cursorprepexec_params(sql, options, param_defs, values@),
{
    let mut params: Vec<RpcParam<'a>> = Vec::new();
    params.push(RpcParam::by_ref(ColumnData::I32(Some(0))));
    params.push(RpcParam::by_ref(ColumnData::I32(Some(0))));
    let defs: Option<Cow<'a, str>> = if is_empty_text(&param_defs) {
        None
    } else {
        Some(param_defs)
    };
    params.push(RpcParam::input(ColumnData::String(defs)));
    params.push(RpcParam::input(ColumnData::String(Some(sql))));
    params.push(RpcParam::by_ref(ColumnData::I32(Some(flags_to_i32(options.scroll().bits())))));
    params.push(
        RpcParam::by_ref(ColumnData::I32(Some(flags_to_i32(options.concurrency().bits())))),
    );
    params.push(RpcParam::by_ref(ColumnData::I32(Some(0))));
    push_bound_params(&mut params, values);
    assert(params_model(params@) =~= cursorprepexec_params(sql, options, param_defs, values@));
    params
}

/// The parameter of the procedures that release a prepared statement.
pub open spec fn unprepare_param(handle: PreparedHandle) -> ParamModel<'static> {
    in_param(ColumnData::I32(Some(handle.spec_i32())))
}

/// Build the parameter of the procedures that release a prepared statement.
pub fn build_unprepare_param(handle: PreparedHandle) -> (param: RpcParam<'static>)
    ensures
        param@ == unprepare_param(handle),
{
    RpcParam::input(ColumnData::I32(Some(handle.as_i32())))
}

/// The number of parameters of `sp_cursoropen`: five without bound values,
/// else one more and the bound values. `sp_cursorprepexec` always has seven
/// and the bound values.
pub proof fn law_parameter_counts<'a>(
    sql: Cow<'a, str>,
    options: CursorOpenOptions,
    param_defs: Cow<'a, str>,
    values: Seq<ColumnData<'a>>,
)
    ensures
        cursoropen_params(sql, options, param_defs, values).len() == if param_defs@.len() == 0 {
            5
        } else {
            6 + values.len()
        },
        cursorprepexec_params(sql, options, param_defs, values).len() == 7 + values.len(),
{
}

} // verus!
