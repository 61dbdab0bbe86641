//! Remote procedure call requests, and the exchange that carries one out.
use crate::flags::{Flag, FlagSet, IntoFlags};
use crate::types::{ColumnData, TypeInfo};
use std::borrow::Cow;
use vstd::prelude::*;

verus! {

/// The status bits of a request parameter.
#[derive(Debug, Clone, Copy, PartialEq, Eq)]
pub enum RpcStatus {
    /// The server writes a value back for the parameter.
    ByRefValue,
}

impl Flag for RpcStatus {
    open spec fn spec_bit(self) -> u32 {
        0x01
    }

    open spec fn spec_mask() -> u32 {
        0x01
    }

    fn bit(self) -> (bit: u32) {
        0x01
    }

    fn mask() -> (mask: u32) {
        0x01
    }

    proof fn lemma_bits_are_separate(a: Self, b: Self) {
        assert(1u32 & 1u32 == 1u32) by (bit_vector);
    }

    proof fn lemma_word_is_its_flags(x: u32, y: u32) {
        assert((x & RpcStatus::ByRefValue.spec_bit() != 0) == (y & RpcStatus::ByRefValue.spec_bit()
            != 0));
        assert(x == y) by (bit_vector)
            requires
                x & 1 == x,
                y & 1 == y,
                (x & 1 != 0) == (y & 1 != 0),
        ;
    }
}

/// A parameter of a request.
#[derive(Debug)]
pub struct RpcParam<'a> {
    /// The name; empty where the parameter binds by position.
    pub name: Cow<'a, str>,
    /// The status bits.
    pub flags: FlagSet<RpcStatus>,
    /// The declared type, where it is not left to the value.
    pub type_info: Option<TypeInfo>,
    /// The value.
    pub value: ColumnData<'a>,
}

/// What a request parameter says.
pub struct ParamModel<'a> {
    pub name: Seq<char>,
    pub flags: Set<RpcStatus>,
    pub type_info: Option<TypeInfo>,
    pub value: ColumnData<'a>,
}

impl<'a> View for RpcParam<'a> {
    type V = ParamModel<'a>;

    open spec fn view(&self) -> ParamModel<'a> {
        ParamModel {
            name: self.name@,
            flags: self.flags@,
            type_info: self.type_info,
            value: self.value,
        }
    }
}

/// What a list of request parameters says.
pub open spec fn params_model<'a>(params: Seq<RpcParam<'a>>) -> Seq<ParamModel<'a>> {
    params.map_values(|p: RpcParam<'a>| p@)
}

/// A value sent to the server, bound by position.
pub open spec fn in_param<'a>(value: ColumnData<'a>) -> ParamModel<'a> {
    ParamModel { name: Seq::empty(), flags: Set::empty(), type_info: None, value }
}

/// A value sent to the server, bound by position, which the server replaces.
pub open spec fn by_ref_param<'a>(value: ColumnData<'a>) -> ParamModel<'a> {
    ParamModel {
        name: Seq::empty(),
        flags: set![RpcStatus::ByRefValue],
        type_info: None,
        value,
    }
}

/// A value sent to the server, bound by name.
pub open spec fn named_param<'a>(name: Seq<char>, value: ColumnData<'a>) -> ParamModel<'a> {
    ParamModel { name, flags: Set::empty(), type_info: None, value }
}

impl<'a> RpcParam<'a> {
    /// A value sent to the server, bound by position.
    pub fn input(value: ColumnData<'a>) -> (param: Self)
        ensures
            param@ == in_param(value),
    {
        proof {
            reveal_strlit("");
        }
        let param = RpcParam {
            name: Cow::Borrowed(""),
            flags: FlagSet::empty(),
            type_info: None,
            value,
        };
        assert(param@.name =~= Seq::<char>::empty());
        param
    }

    /// A value sent to the server, bound by position, which the server
    /// replaces.
    pub fn by_ref(value: ColumnData<'a>) -> (param: Self)
        ensures
            param@ == by_ref_param(value),
    {
        proof {
            reveal_strlit("");
        }
        let param = RpcParam {
            name: Cow::Borrowed(""),
            flags: RpcStatus::ByRefValue.into_flags(),
            type_info: None,
            value,
        };
        assert(param@.name =~= Seq::<char>::empty());
        param
    }

    /// A value sent to the server, bound by name.
    pub fn named(name: String, value: ColumnData<'a>) -> (param: Self)
        ensures
            param@ == named_param(name@, value),
    {
        RpcParam { name: Cow::Owned(name), flags: FlagSet::empty(), type_info: None, value }
    }
}

/// A system procedure that the protocol addresses by number.
#[derive(Debug, Clone, Copy, PartialEq, Eq)]
pub enum RpcProcId {
    /// `sp_cursorfetch`
    CursorFetch,
    /// `sp_cursorclose`
    CursorClose,
    /// `sp_cursorunprepare`
    CursorUnprepare,
    /// `sp_unprepare`
    Unprepare,
}

/// The procedure that a request calls.
#[derive(Debug)]
pub enum RpcProcIdValue<'a> {
    /// A procedure with a name.
    Name(Cow<'a, str>),
    /// A system procedure.
    Id(RpcProcId),
}

/// Which procedure a request calls.
pub enum ProcModel {
    Name(Seq<char>),
    Id(RpcProcId),
}

impl<'a> View for RpcProcIdValue<'a> {
    type V = ProcModel;

    open spec fn view(&self) -> ProcModel {
        match self {
            RpcProcIdValue::Name(name) => ProcModel::Name(name@),
            RpcProcIdValue::Id(id) => ProcModel::Id(*id),
        }
    }
}

/// A remote procedure call.
#[derive(Debug)]
pub struct RpcRequest<'a> {
    /// The procedure to call.
    pub proc: RpcProcIdValue<'a>,
    /// Its parameters, in order.
    pub params: Vec<RpcParam<'a>>,
}

/// What a request says.
pub struct RequestModel<'a> {
    pub proc: ProcModel,
    pub params: Seq<ParamModel<'a>>,
}

impl<'a> View for RpcRequest<'a> {
    type V = RequestModel<'a>;

    open spec fn view(&self) -> RequestModel<'a> {
        RequestModel { proc: self.proc@, params: params_model(self.params@) }
    }
}

/// What the connection has to do next for a call.
#[derive(Debug)]
pub enum Action<'a> {
    /// Read away what is left of the response before.
    Flush,
    /// Send the request.
    Send(RpcRequest<'a>),
    /// Read the response.
    Receive,
    /// Nothing more: the call is complete.
    Finish,
    /// Nothing more: the call ends with the error that the connection met.
    Abort,
}

/// What the connection has to do next.
pub enum ActionModel<'a> {
    Flush,
    Send(RequestModel<'a>),
    Receive,
    Finish,
    Abort,
}

impl<'a> View for Action<'a> {
    type V = ActionModel<'a>;

    open spec fn view(&self) -> ActionModel<'a> {
        match self {
            Action::Flush => ActionModel::Flush,
            Action::Send(request) => ActionModel::Send(request@),
            Action::Receive => ActionModel::Receive,
            Action::Finish => ActionModel::Finish,
            Action::Abort => ActionModel::Abort,
        }
    }
}

/// A call in progress: flush the connection, send the request, read the
/// response. The first thing that fails ends it.
#[derive(Debug)]
pub enum RpcExchange<'a> {
    /// The connection is being flushed; the request waits.
    Flushing(RpcRequest<'a>),
    /// The request is being sent.
    Sending,
    /// The response is being read.
    Receiving,
    /// All went well.
    Done,
    /// Something failed.
    Failed,
}

/// The progress of a call.
pub enum ExchangeModel<'a> {
    Flushing(RequestModel<'a>),
    Sending,
    Receiving,
    Done,
    Failed,
}

impl<'a> View for RpcExchange<'a> {
    type V = ExchangeModel<'a>;

    open spec fn view(&self) -> ExchangeModel<'a> {
        match self {
            RpcExchange::Flushing(request) => ExchangeModel::Flushing(request@),
            RpcExchange::Sending => ExchangeModel::Sending,
            RpcExchange::Receiving => ExchangeModel::Receiving,
            RpcExchange::Done => ExchangeModel::Done,
            RpcExchange::Failed => ExchangeModel::Failed,
        }
    }
}

impl<'a> ExchangeModel<'a> {
    /// Where the call stands after the connection did what was asked, well
    /// (`ok`) or not, and what comes next.
    pub open spec fn step(self, ok: bool) -> (ExchangeModel<'a>, ActionModel<'a>) {
        match self {
            ExchangeModel::Done => (ExchangeModel::Done, ActionModel::Finish),
            ExchangeModel::Failed => (ExchangeModel::Failed, ActionModel::Abort),
            _ if !ok => (ExchangeModel::Failed, ActionModel::Abort),
            ExchangeModel::Flushing(request) => (
                ExchangeModel::Sending,
                ActionModel::Send(request),
            ),
            ExchangeModel::Sending => (ExchangeModel::Receiving, ActionModel::Receive),
            ExchangeModel::Receiving => (ExchangeModel::Done, ActionModel::Finish),
        }
    }

    /// Where the call stands after a series of reports from the connection.
    pub open spec fn run(self, reports: Seq<bool>) -> ExchangeModel<'a>
        decreases reports.len(),
    {
        if reports.len() == 0 {
            self
        } else {
            self.step(reports[0]).0.run(reports.drop_first())
        }
    }

    /// The requests handed to the connection in a series of reports.
    pub open spec fn sent(self, reports: Seq<bool>) -> Seq<RequestModel<'a>>
        decreases reports.len(),
    {
        if reports.len() == 0 {
            Seq::empty()
        } else {
            let (next, action) = self.step(reports[0]);
            let rest = next.sent(reports.drop_first());
            match action {
                ActionModel::Send(request) => seq![request] + rest,
                _ => rest,
            }
        }
    }
}

impl<'a> RpcExchange<'a> {
    /// A call that has not begun. Its first action is to flush.
    pub fn start(request: RpcRequest<'a>) -> (exchange: Self)
        ensures
            exchange@ == ExchangeModel::Flushing(request@),
    {
        RpcExchange::Flushing(request)
    }

    /// Take note of how the last action went, and say what comes next.
    pub fn step(self, ok: bool) -> (next: (Self, Action<'a>))
        ensures
            (next.0@, next.1@) == self@.step(ok),
    {
        match self {
            RpcExchange::Done => (RpcExchange::Done, Action::Finish),
            RpcExchange::Failed => (RpcExchange::Failed, Action::Abort),
            _ if !ok => (RpcExchange::Failed, Action::Abort),
            RpcExchange::Flushing(request) => (RpcExchange::Sending, Action::Send(request)),
            RpcExchange::Sending => (RpcExchange::Receiving, Action::Receive),
            RpcExchange::Receiving => (RpcExchange::Done, Action::Finish),
        }
    }

    /// Whether the request is being sent.
    pub fn is_sending(&self) -> (sending: bool)
        ensures
            sending == (self@ is Sending),
    {
        match self {
            RpcExchange::Sending => true,
            _ => false,
        }
    }

    /// Whether the call is complete.
    pub fn is_done(&self) -> (done: bool)
        ensures
            done == (self@ is Done),
    {
        match self {
            RpcExchange::Done => true,
            _ => false,
        }
    }
}

/// A call that is over stays as it is, and sends nothing more.
pub proof fn lemma_over_is_over<'a>(exchange: ExchangeModel<'a>, reports: Seq<bool>)
    requires
        exchange is Done || exchange is Failed,
    ensures
        exchange.run(reports) == exchange,
        exchange.sent(reports) == Seq::<RequestModel<'a>>::empty(),
    decreases reports.len(),
{
    if reports.len() > 0 {
        lemma_over_is_over(exchange, reports.drop_first());
    }
}

/// After its request has gone out, a call sends nothing more.
pub proof fn lemma_sent_once<'a>(exchange: ExchangeModel<'a>, reports: Seq<bool>)
    requires
        !(exchange is Flushing),
    ensures
        exchange.sent(reports) == Seq::<RequestModel<'a>>::empty(),
    decreases reports.len(),
{
    if reports.len() > 0 {
        lemma_sent_once(exchange.step(reports[0]).0, reports.drop_first());
    }
}

/// A call succeeds exactly when flushing, sending and receiving all succeed,
/// and fails as soon as one of them fails. The request goes out exactly when
/// the flush succeeded, and never twice.
pub proof fn law_exchange_outcome<'a>(request: RequestModel<'a>, reports: Seq<bool>)
    ensures
        ({
            let start = ExchangeModel::Flushing(request);
            let end = start.run(reports);
            &&& end is Done <==> reports.len() >= 3 && reports[0] && reports[1] && reports[2]
            &&& end is Failed <==> exists|i: int|
                0 <= i < 3 && i < reports.len() && !#[trigger] reports[i]
            &&& start.sent(reports) == if reports.len() >= 1 && reports[0] {
                seq![request]
            } else {
                Seq::empty()
            }
        }),
{
    reveal_with_fuel(ExchangeModel::run, 4);
    let start = ExchangeModel::Flushing(request);
    if reports.len() > 0 {
        let rest = reports.drop_first();
        lemma_sent_once(start.step(reports[0]).0, rest);
        if !reports[0] {
            lemma_over_is_over(ExchangeModel::<'a>::Failed, rest);
        } else if rest.len() > 0 {
            assert(rest[0] == reports[1]);
            let rest2 = rest.drop_first();
            if !reports[1] {
                lemma_over_is_over(ExchangeModel::<'a>::Failed, rest2);
            } else if rest2.len() > 0 {
                assert(rest2[0] == reports[2]);
                lemma_over_is_over(
                    ExchangeModel::<'a>::Receiving.step(reports[2]).0,
                    rest2.drop_first(),
                );
            }
        }
    }
    assert(start.sent(reports) =~= if reports.len() >= 1 && reports[0] {
        seq![request]
    } else {
        Seq::empty()
    });
}

} // verus!
