//! Calls of arbitrary stored procedures.
use crate::flags::{FlagSet, IntoFlags};
use crate::options::{flags_to_i32, word_to_signed};
use crate::rpc::{
    params_model, ExchangeModel, ParamModel, ProcModel, RequestModel, RpcExchange, RpcParam,
    RpcProcIdValue, RpcRequest, RpcStatus,
};
use crate::text::IntoText;
use crate::types::{BufferedResultSet, ColumnData, OutputValue, TokenInfo, TypeInfo};
use std::borrow::Cow;
use vstd::prelude::*;

verus! {

/// Whether a [`ProcedureParameter`] carries a value to the server, a value
/// back from the server, or both.
#[derive(Debug, Clone, Copy, PartialEq, Eq, Structural)]
pub enum ParameterDirection {
    /// The value is sent to the server; no value is returned for it.
    Input,
    /// The value is not meaningful on the way in; the server writes a value
    /// back for it.
    Output,
    /// The value is sent to the server, which may return a different value
    /// for the same parameter.
    InputOutput,
}

/// A single parameter of a stored procedure.
///
/// The wire type is always explicit and independent of the value. This lets
/// an [`Output`](ParameterDirection::Output) parameter use a real SQL `NULL`
/// as its placeholder: the declared type, not the value, decides whether the
/// wire representation is nullable.
///
/// Parameters bind by position by default; call [`named`](Self::named) to
/// bind by name instead.
#[derive(Debug, Clone)]
pub struct ProcedureParameter<'a> {
    name: Option<Cow<'a, str>>,
    direction: ParameterDirection,
    type_info: TypeInfo,
    value: ColumnData<'a>,
}

/// What a procedure parameter says. One without a name binds by position.
pub struct ProcedureParameterModel<'a> {
    pub name: Option<Seq<char>>,
    pub direction: ParameterDirection,
    pub type_info: TypeInfo,
    pub value: ColumnData<'a>,
}

impl<'a> View for ProcedureParameter<'a> {
    type V = ProcedureParameterModel<'a>;

    closed spec fn view(&self) -> ProcedureParameterModel<'a> {
        ProcedureParameterModel {
            name: match self.name {
                Some(name) => Some(name@),
                None => None,
            },
            direction: self.direction,
            type_info: self.type_info,
            value: self.value,
        }
    }
}

impl<'a> ProcedureParameterModel<'a> {
    /// The request parameter that a procedure parameter becomes. The server
    /// writes a value back unless the parameter is input only.
    pub open spec fn rpc_param(self) -> ParamModel<'a> {
        ParamModel {
            name: match self.name {
                Some(name) => name,
                None => Seq::empty(),
            },
            flags: match self.direction {
                ParameterDirection::Input => Set::empty(),
                ParameterDirection::Output => set![RpcStatus::ByRefValue],
                ParameterDirection::InputOutput => set![RpcStatus::ByRefValue],
            },
            type_info: Some(self.type_info),
            value: self.value,
        }
    }
}

impl<'a> ProcedureParameter<'a> {
    /// An input-only parameter: `value` is sent to the server and not
    /// expected back.
    pub fn input(type_info: TypeInfo, value: ColumnData<'a>) -> (param: Self)
        ensures
            param@ == (ProcedureParameterModel {
                name: None,
                direction: ParameterDirection::Input,
                type_info,
                value,
            }),
    {
        ProcedureParameter { name: None, direction: ParameterDirection::Input, type_info, value }
    }

    /// An output-only parameter. `value` is the placeholder sent to the
    /// server before it writes the real value back, typically a `NULL` of the
    /// declared type.
    pub fn output(type_info: TypeInfo, value: ColumnData<'a>) -> (param: Self)
        ensures
            param@ == (ProcedureParameterModel {
                name: None,
                direction: ParameterDirection::Output,
                type_info,
                value,
            }),
    {
        ProcedureParameter { name: None, direction: ParameterDirection::Output, type_info, value }
    }

    /// An input/output parameter: `value` is sent to the server as the
    /// initial input, and the server may return a different value for the
    /// same parameter.
    pub fn input_output(type_info: TypeInfo, value: ColumnData<'a>) -> (param: Self)
        ensures
            param@ == (ProcedureParameterModel {
                name: None,
                direction: ParameterDirection::InputOutput,
                type_info,
                value,
            }),
    {
        ProcedureParameter {
            name: None,
            direction: ParameterDirection::InputOutput,
            type_info,
            value,
        }
    }

    /// Bind this parameter by name (e.g. `"@handle"`) instead of by position.
    pub fn named<T: IntoText<'a>>(self, name: T) -> (param: Self)
        ensures
            param@ == (ProcedureParameterModel { name: Some(name.spec_text()), ..self@ }),
    {
        ProcedureParameter {
            name: Some(name.into_text()),
            direction: self.direction,
            type_info: self.type_info,
            value: self.value,
        }
    }

    /// The parameter's name, if bound by name.
    pub fn name(&self) -> (name: Option<&str>)
        ensures
            match (name, self@.name) {
                (Some(name), Some(expected)) => name@ == expected,
                (None, None) => true,
                _ => false,
            },
    {
        match &self.name {
            Some(Cow::Borrowed(name)) => Some(*name),
            Some(Cow::Owned(name)) => Some(name.as_str()),
            None => None,
        }
    }

    /// The parameter's direction.
    pub fn direction(&self) -> (direction: ParameterDirection)
        ensures
            direction == self@.direction,
    {
        self.direction
    }

    /// The parameter's declared wire type.
    pub fn type_info(&self) -> (type_info: &TypeInfo)
        ensures
            *type_info == self@.type_info,
    {
        &self.type_info
    }

    /// The parameter's value.
    pub fn value(&self) -> (value: &ColumnData<'a>)
        ensures
            *value == self@.value,
    {
        &self.value
    }

    /// The request parameter that this parameter becomes.
    pub fn into_rpc_param(self) -> (param: RpcParam<'a>)
        ensures
            param@ == self@.rpc_param(),
    {
        proof {
            reveal_strlit("");
        }
        let flags: FlagSet<RpcStatus> = match self.direction {
            ParameterDirection::Input => FlagSet::empty(),
            ParameterDirection::Output | ParameterDirection::InputOutput => {
                RpcStatus::ByRefValue.into_flags()
            },
        };
        let name: Cow<'a, str> = match self.name {
            Some(name) => name,
            None => Cow::Borrowed(""),
        };
        let param = RpcParam { name, flags, type_info: Some(self.type_info), value: self.value };
        assert(param@.name =~= self@.rpc_param().name);
        assert(param@.flags =~= self@.rpc_param().flags);
        param
    }
}

/// The request parameters that procedure parameters become, in their order.
pub open spec fn rpc_params<'a>(parameters: Seq<ProcedureParameter<'a>>) -> Seq<ParamModel<'a>> {
    parameters.map_values(|p: ProcedureParameter<'a>| p@.rpc_param())
}

/// The request that calls the procedure `proc`.
pub open spec fn procedure_request<'a>(
    proc: Seq<char>,
    parameters: Seq<ProcedureParameter<'a>>,
) -> RequestModel<'a> {
    RequestModel { proc: ProcModel::Name(proc), params: rpc_params(parameters) }
}

/// Call a stored procedure by name.
///
/// The call flushes the connection, sends the request and reads the whole
/// response, from which [`ProcedureResult::from_response`] makes the result.
pub fn call_procedure<'a, T: IntoText<'a>>(
    proc: T,
    parameters: Vec<ProcedureParameter<'a>>,
) -> (exchange: RpcExchange<'a>)
    ensures
        exchange@ == ExchangeModel::Flushing(procedure_request(proc.spec_text(), parameters@)),
{
    let ghost all = parameters@;
    let mut params: Vec<RpcParam<'a>> = Vec::new();
    for parameter in it: parameters
        invariant
            it.seq() == all,
            params_model(params@) == rpc_params(all.take(it.index())),
    {
        assert(parameter == all[it.index()]);
        let ghost so_far = params@;
        params.push(parameter.into_rpc_param());
        assert(params_model(params@) =~= params_model(so_far).push(parameter@.rpc_param()));
        assert(all.take(it.index() + 1) =~= all.take(it.index()).push(parameter));
        assert(params_model(params@) =~= rpc_params(all.take(it.index() + 1)));
    }
    assert(all.take(all.len() as int) =~= all);
    RpcExchange::start(RpcRequest { proc: RpcProcIdValue::Name(proc.into_text()), params })
}

/// The full response to a procedure call: any result sets the procedure
/// produced, its output parameter values, its `RETURN` status, and any
/// informational messages it emitted.
#[derive(Debug)]
pub struct ProcedureResult {
    /// Result sets produced by the procedure, in the order the server sent
    /// them.
    pub result_sets: Vec<BufferedResultSet>,
    /// Output parameter values the server returned.
    pub output_values: Vec<OutputValue>,
    /// The procedure's `RETURN` status, if any.
    pub return_status: Option<i32>,
    /// Informational messages emitted while the procedure ran, in emission
    /// order.
    pub messages: Vec<TokenInfo>,
}

impl ProcedureResult {
    /// The result that a response brings. The status comes as an unsigned word
    /// and stands for a signed integer.
    pub fn from_response(
        result_sets: Vec<BufferedResultSet>,
        output_values: Vec<OutputValue>,
        return_status: Option<u32>,
        messages: Vec<TokenInfo>,
    ) -> (result: Self)
        ensures
            result.result_sets == result_sets,
            result.output_values == output_values,
            result.messages == messages,
            match (result.return_status, return_status) {
                (Some(status), Some(word)) => status == word_to_signed(word),
                (None, None) => true,
                _ => false,
            },
    {
        let return_status: Option<i32> = match return_status {
            Some(word) => Some(flags_to_i32(word)),
            None => None,
        };
        ProcedureResult { result_sets, output_values, return_status, messages }
    }
}

/// The server is asked to write a value back exactly for the parameters that
/// are not input only.
pub proof fn law_by_reference_unless_input<'a>(param: ProcedureParameterModel<'a>)
    ensures
        param.rpc_param().flags.contains(RpcStatus::ByRefValue) <==> param.direction
            != ParameterDirection::Input,
{
}

/// The declared type travels with the parameter as it is, and does not depend
/// on the value; a `NULL` stays a `NULL`.
pub proof fn law_declared_type_is_kept<'a>(
    param: ProcedureParameterModel<'a>,
    other: ColumnData<'a>,
)
    ensures
        param.rpc_param().type_info == Some(param.type_info),
        param.rpc_param().value == param.value,
        (ProcedureParameterModel { value: other, ..param }).rpc_param() == (ParamModel {
            value: other,
            ..param.rpc_param()
        }),
{
}

/// A call sends one request parameter for each procedure parameter, each in
/// its place, and one bound by position has no name.
pub proof fn law_parameters_keep_their_places<'a>(
    proc: Seq<char>,
    parameters: Seq<ProcedureParameter<'a>>,
)
    ensures
        procedure_request(proc, parameters).params.len() == parameters.len(),
        forall|i: int|
            0 <= i < parameters.len() ==> {
                let sent = #[trigger] procedure_request(proc, parameters).params[i];
                &&& sent == parameters[i]@.rpc_param()
                &&& parameters[i]@.name is None ==> sent.name.len() == 0
            },
{
}

} // verus!
