//! What the output parameters of the cursor procedures say.
use crate::cursor::{Cursor, CursorHandle, CursorModel};
use crate::direct::{
    buffered_model, direct_result_sets, CursorPrepExecOutcome, DirectModel, DirectResults,
    OutcomeModel, ResultSetModel,
};
use crate::error::Error;
use crate::options::{
    concurrency_flags_of, flags_to_i32, i32_to_cc_flags, i32_to_scroll_flags, law_options_round_trip,
    scroll_flags_of, word_to_signed, CursorOpenOptions,
};
use crate::prepared::{PreparedCursor, PreparedModel};
use crate::types::{BufferedResultSet, Column, OutputValue, PreparedHandle, TokenInfo};
use vstd::prelude::*;

verus! {

/// The integer in the first output that goes by `name`; nothing if there is
/// no such output, or its value is not an integer.
pub open spec fn named_int(outputs: Seq<OutputValue>, name: Seq<char>) -> Option<i32>
    decreases outputs.len(),
{
    if outputs.len() == 0 {
        None
    } else if outputs[0].is_named(name) {
        outputs[0].value.as_int()
    } else {
        named_int(outputs.drop_first(), name)
    }
}

/// The integer in the output at `place`.
pub open spec fn placed_int(outputs: Seq<OutputValue>, place: int) -> Option<i32> {
    if 0 <= place < outputs.len() {
        outputs[place].value.as_int()
    } else {
        None
    }
}

/// The first of two values that is there.
pub open spec fn or_else(first: Option<i32>, second: Option<i32>) -> Option<i32> {
    match first {
        Some(_) => first,
        None => second,
    }
}

/// The value that is there, or a default.
pub open spec fn or_default(value: Option<i32>, default: i32) -> i32 {
    match value {
        Some(value) => value,
        None => default,
    }
}

/// The integer in the output that goes by `name`, or else in that at `place`.
pub open spec fn output_int(outputs: Seq<OutputValue>, name: Seq<char>, place: int) -> Option<
    i32,
> {
    or_else(named_int(outputs, name), placed_int(outputs, place))
}

/// The integer in the first output that goes by `name`.
fn lookup_named(outputs: &[OutputValue], name: &str) -> (value: Option<i32>)
    ensures
        value == named_int(outputs@, name@),
{
    let mut i: usize = 0;
    assert(outputs@.skip(0) =~= outputs@);
    while i < outputs.len()
        invariant
            0 <= i <= outputs.len(),
            named_int(outputs@, name@) == named_int(outputs@.skip(i as int), name@),
        decreases outputs.len() - i,
    {
        if outputs[i].matches_name(name) {
            return outputs[i].get_i32();
        }
        assert(outputs@.skip(i as int).drop_first() =~= outputs@.skip(i + 1));
        i = i + 1;
    }
    None
}

/// The integer in the output at `place`.
fn by_place(outputs: &[OutputValue], place: usize) -> (value: Option<i32>)
    ensures
        value == placed_int(outputs@, place as int),
{
    if place < outputs.len() {
        outputs[place].get_i32()
    } else {
        None
    }
}

/// The integer in the output that goes by `name`, or else in that at `place`.
fn lookup(outputs: &[OutputValue], name: &str, place: usize) -> (value: Option<i32>)
    ensures
        value == output_int(outputs@, name@, place as int),
{
    match lookup_named(outputs, name) {
        Some(value) => Some(value),
        None => by_place(outputs, place),
    }
}

/// Whether a result is what was expected: the same value, or a protocol error
/// with the same text.
pub open spec fn agrees<T: View>(result: Result<T, Error>, expected: Result<T::V, Seq<char>>) -> bool {
    match (result, expected) {
        (Ok(value), Ok(model)) => value@ == model,
        (Err(error), Err(text)) => error is Protocol && error.text() == text,
        _ => false,
    }
}

/// The cursor in the outputs of `sp_cursoropen`, or the text of the error.
pub open spec fn cursor_of(outputs: Seq<OutputValue>) -> Result<CursorModel, Seq<char>> {
    match output_int(outputs, "cursor"@, 0) {
        None => Err("sp_cursoropen: missing @cursor output parameter in server response"@),
        Some(handle) => Ok(
            CursorModel {
                handle: CursorHandle::spec_from_i32(handle),
                scroll: scroll_flags_of(or_default(output_int(outputs, "scrollopt"@, 1), 0)),
                concurrency: concurrency_flags_of(
                    or_default(output_int(outputs, "ccopt"@, 2), 0),
                ),
                row_count: or_default(output_int(outputs, "rowcount"@, 3), -1i32),
                closed: false,
            },
        ),
    }
}

/// Build a [`Cursor`] from the output parameters returned by `sp_cursoropen`.
///
/// SQL Server returns outputs with empty names in the order @cursor,
/// @scrollopt, @ccopt, @rowcount; other servers name them. Names are matched
/// first, then places.
pub fn cursor_from_outputs(outputs: &[OutputValue]) -> (cursor: Result<Cursor, Error>)
    ensures
        agrees(cursor, cursor_of(outputs@)),
{
    match lookup(outputs, "cursor", 0) {
        None => Err(
            Error::protocol("sp_cursoropen: missing @cursor output parameter in server response"),
        ),
        Some(handle) => {
            let scrollopt: i32 = lookup(outputs, "scrollopt", 1).unwrap_or(0);
            let ccopt: i32 = lookup(outputs, "ccopt", 2).unwrap_or(0);
            let row_count: i32 = lookup(outputs, "rowcount", 3).unwrap_or(-1);
            Ok(
                Cursor::opened(
                    CursorHandle::from_i32(handle),
                    i32_to_scroll_flags(scrollopt),
                    i32_to_cc_flags(ccopt),
                    row_count,
                ),
            )
        },
    }
}

/// The prepared handle in the outputs of `sp_cursorprepexec`, or the text of
/// the error.
pub open spec fn prepared_handle_of(outputs: Seq<OutputValue>) -> Result<i32, Seq<char>> {
    let handle = or_else(
        named_int(outputs, "prepared_handle"@),
        output_int(outputs, "handle"@, 0),
    );
    match handle {
        None => Err("sp_cursorprepexec: missing @prepared_handle output parameter"@),
        Some(handle) => if handle == 0 {
            Err("sp_cursorprepexec: server returned a zero @prepared_handle"@)
        } else {
            Ok(handle)
        },
    }
}

/// The prepared handle in the outputs of `sp_cursorprepexec`.
fn prepared_handle_from_outputs(outputs: &[OutputValue]) -> (handle: Result<i32, Error>)
    ensures
        match (handle, prepared_handle_of(outputs@)) {
            (Ok(handle), Ok(expected)) => handle == expected && handle != 0,
            (Err(error), Err(text)) => error is Protocol && error.text() == text,
            _ => false,
        },
{
    let handle: Option<i32> = match lookup_named(outputs, "prepared_handle") {
        Some(handle) => Some(handle),
        None => lookup(outputs, "handle", 0),
    };
    match handle {
        None => Err(
            Error::protocol("sp_cursorprepexec: missing @prepared_handle output parameter"),
        ),
        Some(handle) => {
            if handle == 0 {
                Err(Error::protocol("sp_cursorprepexec: server returned a zero @prepared_handle"))
            } else {
                Ok(handle)
            }
        },
    }
}

/// The statement and cursor in the outputs of `sp_cursorprepexec`, or the text
/// of the error.
pub open spec fn prepared_cursor_of(
    outputs: Seq<OutputValue>,
    metadata: Option<Seq<Column>>,
) -> Result<PreparedModel, Seq<char>> {
    match (prepared_handle_of(outputs), output_int(outputs, "cursor"@, 1)) {
        (Err(text), _) => Err(text),
        (Ok(_), None) => Err("sp_cursorprepexec: missing @cursor output parameter"@),
        (Ok(prepared_handle), Some(handle)) => if handle == 0 {
            Err("sp_cursorprepexec: server returned a zero @cursor"@)
        } else {
            let cursor = CursorModel {
                handle: CursorHandle::spec_from_i32(handle),
                scroll: scroll_flags_of(or_default(output_int(outputs, "scrollopt"@, 2), 0)),
                concurrency: concurrency_flags_of(
                    or_default(output_int(outputs, "ccopt"@, 3), 0),
                ),
                row_count: or_default(output_int(outputs, "rowcount"@, 4), -1i32),
                closed: false,
            };
            Ok(
                PreparedModel {
                    prepared_handle: PreparedHandle::spec_from_i32(prepared_handle),
                    cursor: Some(cursor),
                    cursor_handle: cursor.handle,
                    scroll: cursor.scroll,
                    concurrency: cursor.concurrency,
                    row_count: cursor.row_count,
                    metadata,
                    released: false,
                },
            )
        },
    }
}

/// Build a [`PreparedCursor`] from `sp_cursorprepexec` output parameters.
///
/// SQL Server returns unnamed outputs in response order, other servers can
/// use names. Names are matched first, then arrival order counts. These
/// outputs are all `int`, so the TDS rule that moves large object outputs to
/// the end of the stream does not affect their order.
pub fn prepared_cursor_from_outputs(
    outputs: &[OutputValue],
    metadata: Option<Vec<Column>>,
) -> (prepared: Result<PreparedCursor, Error>)
    ensures
        agrees(
            prepared,
            prepared_cursor_of(
                outputs@,
                match metadata {
                    Some(metadata) => Some(metadata@),
                    None => None,
                },
            ),
        ),
{
    let prepared_handle: i32 = match prepared_handle_from_outputs(outputs) {
        Ok(handle) => handle,
        Err(error) => return Err(error),
    };
    let cursor_handle: i32 = match lookup(outputs, "cursor", 1) {
        Some(handle) => handle,
        None => return Err(
            Error::protocol("sp_cursorprepexec: missing @cursor output parameter"),
        ),
    };
    if cursor_handle == 0 {
        return Err(Error::protocol("sp_cursorprepexec: server returned a zero @cursor"));
    }
    let scrollopt: i32 = lookup(outputs, "scrollopt", 2).unwrap_or(0);
    let ccopt: i32 = lookup(outputs, "ccopt", 3).unwrap_or(0);
    let row_count: i32 = lookup(outputs, "rowcount", 4).unwrap_or(-1);
    let cursor = Cursor::opened(
        CursorHandle::from_i32(cursor_handle),
        i32_to_scroll_flags(scrollopt),
        i32_to_cc_flags(ccopt),
        row_count,
    );
    Ok(PreparedCursor::opened(PreparedHandle::from_i32(prepared_handle), cursor, metadata))
}

/// The number of the message by which SQL Server says that it executed a
/// statement directly instead of opening a cursor.
pub const SQL_SERVER_INFO_EXECUTED_DIRECTLY: u32 = 16_954;

/// Whether the server said that it executed the statement directly.
pub open spec fn executed_directly(infos: Seq<TokenInfo>) -> bool {
    exists|i: int|
        0 <= i < infos.len() && (#[trigger] infos[i]).number == SQL_SERVER_INFO_EXECUTED_DIRECTLY
}

/// Whether the server said that it executed the statement directly.
fn has_direct_info(infos: &[TokenInfo]) -> (found: bool)
    ensures
        found == executed_directly(infos@),
{
    let mut i: usize = 0;
    while i < infos.len()
        invariant
            0 <= i <= infos.len(),
            forall|j: int|
                0 <= j < i ==> (#[trigger] infos@[j]).number != SQL_SERVER_INFO_EXECUTED_DIRECTLY,
        decreases infos.len() - i,
    {
        if infos[i].number == SQL_SERVER_INFO_EXECUTED_DIRECTLY {
            return true;
        }
        i = i + 1;
    }
    false
}

/// A direct execution, as far as the outputs name what they say. An option
/// that no output names is as requested.
pub open spec fn direct_of(
    prepared_handle: i32,
    outputs: Seq<OutputValue>,
    results: Seq<ResultSetModel>,
    requested: CursorOpenOptions,
) -> DirectModel {
    DirectModel {
        prepared_handle: PreparedHandle::spec_from_i32(prepared_handle),
        results,
        scroll: scroll_flags_of(
            or_default(
                named_int(outputs, "scrollopt"@),
                word_to_signed(requested.spec_scroll().spec_bits()) as i32,
            ),
        ),
        concurrency: concurrency_flags_of(
            or_default(
                named_int(outputs, "ccopt"@),
                word_to_signed(requested.spec_concurrency().spec_bits()) as i32,
            ),
        ),
        row_count: or_default(named_int(outputs, "rowcount"@), -1i32),
        released: false,
    }
}

/// The columns of the first result set, if there is one.
pub open spec fn first_columns(results: Seq<ResultSetModel>) -> Option<Seq<Column>> {
    if results.len() > 0 {
        Some(results[0].columns)
    } else {
        None
    }
}

/// What a response to `sp_cursorprepexec` says, or the text of the error.
pub open spec fn outcome_of(
    outputs: Seq<OutputValue>,
    results: Seq<ResultSetModel>,
    infos: Seq<TokenInfo>,
    requested: CursorOpenOptions,
) -> Result<OutcomeModel, Seq<char>> {
    match prepared_handle_of(outputs) {
        Err(text) => Err(text),
        Ok(prepared_handle) => if executed_directly(infos) {
            Ok(OutcomeModel::Direct(direct_of(prepared_handle, outputs, results, requested)))
        } else {
            match prepared_cursor_of(outputs, first_columns(results)) {
                Ok(prepared) => Ok(OutcomeModel::Cursor(prepared)),
                Err(text) => Err(text),
            }
        },
    }
}

/// Interpret an `sp_cursorprepexec` response, distinguishing a normal
/// prepared cursor from an AllowDirect direct-result response.
///
/// SQL Server signals the AllowDirect fallback with INFO 16954 and may omit
/// the cursor ID and row-count outputs entirely. Which output then stands at
/// which place says nothing, so that only named outputs are used; without
/// names the requested options are kept. A response without that INFO token
/// is a normal cursor response, and its result sets (a normal open streams
/// only metadata) serve solely to seed the cursor's cached metadata.
pub fn cursor_prep_exec_outcome(
    outputs: &[OutputValue],
    result_sets: Vec<BufferedResultSet>,
    infos: &[TokenInfo],
    requested_options: CursorOpenOptions,
) -> (outcome: Result<CursorPrepExecOutcome, Error>)
    ensures
        agrees(
            outcome,
            outcome_of(outputs@, buffered_model(result_sets@), infos@, requested_options),
        ),
{
    let prepared_handle: i32 = match prepared_handle_from_outputs(outputs) {
        Ok(handle) => handle,
        Err(error) => return Err(error),
    };
    if has_direct_info(infos) {
        let scrollopt: i32 = match lookup_named(outputs, "scrollopt") {
            Some(value) => value,
            None => flags_to_i32(requested_options.scroll().bits()),
        };
        let ccopt: i32 = match lookup_named(outputs, "ccopt") {
            Some(value) => value,
            None => flags_to_i32(requested_options.concurrency().bits()),
        };
        let row_count: i32 = lookup_named(outputs, "rowcount").unwrap_or(-1);
        return Ok(
            CursorPrepExecOutcome::Direct(
                DirectResults::executed(
                    PreparedHandle::from_i32(prepared_handle),
                    direct_result_sets(result_sets),
                    i32_to_scroll_flags(scrollopt),
                    i32_to_cc_flags(ccopt),
                    row_count,
                ),
            ),
        );
    }
    let metadata: Option<Vec<Column>> = if result_sets.len() > 0 {
        let columns: Vec<Column> = (*result_sets[0].columns).clone();
        assert(columns@ =~= buffered_model(result_sets@)[0].columns);
        Some(columns)
    } else {
        None
    };
    match prepared_cursor_from_outputs(outputs, metadata) {
        Ok(prepared) => Ok(CursorPrepExecOutcome::Cursor(prepared)),
        Err(error) => Err(error),
    }
}

/// Whether two responses bring the same outputs, whatever ordinals the server
/// gave them.
pub open spec fn same_but_for_ordinals(a: Seq<OutputValue>, b: Seq<OutputValue>) -> bool {
    &&& a.len() == b.len()
    &&& forall|i: int|
        #![trigger a[i]]
        #![trigger b[i]]
        0 <= i < a.len() ==> a[i].name@ == b[i].name@ && a[i].value == b[i].value
}

/// Whether no output has a name.
pub open spec fn all_unnamed(outputs: Seq<OutputValue>) -> bool {
    forall|i: int| 0 <= i < outputs.len() ==> (#[trigger] outputs[i]).name@.len() == 0
}

proof fn lemma_named_without_ordinals(a: Seq<OutputValue>, b: Seq<OutputValue>, name: Seq<char>)
    requires
        same_but_for_ordinals(a, b),
    ensures
        named_int(a, name) == named_int(b, name),
    decreases a.len(),
{
    if a.len() > 0 {
        assert(a[0].is_named(name) == b[0].is_named(name));
        assert forall|i: int| 0 <= i < a.len() - 1 implies #[trigger] a.drop_first()[i].name@
            == b.drop_first()[i].name@ && a.drop_first()[i].value == b.drop_first()[i].value by {
            assert(a.drop_first()[i] == a[i + 1]);
            assert(b.drop_first()[i] == b[i + 1]);
        }
        assert(same_but_for_ordinals(a.drop_first(), b.drop_first())) by {
            assert forall|i: int|
                #![trigger b.drop_first()[i]]
                0 <= i < a.len() - 1 implies a.drop_first()[i].name@ == b.drop_first()[i].name@
                && a.drop_first()[i].value == b.drop_first()[i].value by {
                assert(a.drop_first()[i] == a[i + 1]);
            }
        }
        lemma_named_without_ordinals(a.drop_first(), b.drop_first(), name);
    }
}

/// Outputs are told apart by name and by place in the response. The ordinals
/// that the server gave them never matter.
pub proof fn law_ordinals_do_not_matter(
    a: Seq<OutputValue>,
    b: Seq<OutputValue>,
    metadata: Option<Seq<Column>>,
    results: Seq<ResultSetModel>,
    infos: Seq<TokenInfo>,
    requested: CursorOpenOptions,
)
    requires
        same_but_for_ordinals(a, b),
    ensures
        cursor_of(a) == cursor_of(b),
        prepared_cursor_of(a, metadata) == prepared_cursor_of(b, metadata),
        outcome_of(a, results, infos, requested) == outcome_of(b, results, infos, requested),
{
    lemma_named_without_ordinals(a, b, "prepared_handle"@);
    lemma_named_without_ordinals(a, b, "handle"@);
    lemma_named_without_ordinals(a, b, "cursor"@);
    lemma_named_without_ordinals(a, b, "scrollopt"@);
    lemma_named_without_ordinals(a, b, "ccopt"@);
    lemma_named_without_ordinals(a, b, "rowcount"@);
    assert forall|place: int| placed_int(a, place) == placed_int(b, place) by {
        if 0 <= place < a.len() {
            assert(a[place].value == b[place].value);
        }
    }
}

/// Where the server names no output, each is the one at its place.
pub proof fn law_unnamed_outputs_go_by_place(
    outputs: Seq<OutputValue>,
    name: Seq<char>,
    place: int,
)
    requires
        all_unnamed(outputs),
    ensures
        named_int(outputs, name) is None,
        output_int(outputs, name, place) == placed_int(outputs, place),
    decreases outputs.len(),
{
    if outputs.len() > 0 {
        assert(!outputs[0].is_named(name));
        assert(all_unnamed(outputs.drop_first())) by {
            assert forall|i: int| 0 <= i < outputs.len() - 1 implies (
            #[trigger] outputs.drop_first()[i]).name@.len() == 0 by {
                assert(outputs.drop_first()[i] == outputs[i + 1]);
            }
        }
        law_unnamed_outputs_go_by_place(outputs.drop_first(), name, place);
    }
}

/// A named integer output counts wherever in the response it stands: the
/// output at the place where it was looked for says nothing.
pub proof fn law_named_outputs_count_anywhere(
    outputs: Seq<OutputValue>,
    name: Seq<char>,
    at: int,
    place: int,
)
    requires
        0 <= at < outputs.len(),
        outputs[at].is_named(name),
        outputs[at].value.as_int() is Some,
        forall|i: int| 0 <= i < outputs.len() && i != at ==> !(#[trigger] outputs[i]).is_named(name),
    ensures
        named_int(outputs, name) == outputs[at].value.as_int(),
        output_int(outputs, name, place) == outputs[at].value.as_int(),
    decreases outputs.len(),
{
    if at > 0 {
        assert(!outputs[0].is_named(name));
        let rest = outputs.drop_first();
        assert(rest[at - 1] == outputs[at]);
        assert forall|i: int| 0 <= i < rest.len() && i != at - 1 implies !(
        #[trigger] rest[i]).is_named(name) by {
            assert(rest[i] == outputs[i + 1]);
        }
        law_named_outputs_count_anywhere(rest, name, at - 1, place);
    }
}

/// The server executed the statement directly if and only if it said so. That
/// it opened no cursor, or sent rows, is not enough, and a direct execution is
/// never taken for a cursor.
pub proof fn law_direct_only_where_the_server_says_so(
    outputs: Seq<OutputValue>,
    results: Seq<ResultSetModel>,
    infos: Seq<TokenInfo>,
    requested: CursorOpenOptions,
)
    ensures
        match outcome_of(outputs, results, infos, requested) {
            Ok(OutcomeModel::Direct(direct)) => {
                &&& executed_directly(infos)
                &&& direct.results == results
                &&& !direct.released
            },
            Ok(OutcomeModel::Cursor(prepared)) => {
                &&& !executed_directly(infos)
                &&& prepared.metadata == first_columns(results)
                &&& !prepared.released
            },
            Err(_) => prepared_handle_of(outputs) is Err || !executed_directly(infos),
        },
{
}

/// A direct execution without named outputs keeps the requested options and
/// has no row count, whatever other outputs the server sent.
pub proof fn law_direct_keeps_requested_options(
    outputs: Seq<OutputValue>,
    results: Seq<ResultSetModel>,
    infos: Seq<TokenInfo>,
    requested: CursorOpenOptions,
)
    requires
        requested.spec_scroll().wf(),
        requested.spec_concurrency().wf(),
        executed_directly(infos),
        all_unnamed(outputs),
        prepared_handle_of(outputs) is Ok,
    ensures
        outcome_of(outputs, results, infos, requested) == Ok::<OutcomeModel, Seq<char>>(
            OutcomeModel::Direct(
                DirectModel {
                    prepared_handle: PreparedHandle::spec_from_i32(
                        prepared_handle_of(outputs)->Ok_0,
                    ),
                    results,
                    scroll: requested.spec_scroll(),
                    concurrency: requested.spec_concurrency(),
                    row_count: -1i32,
                    released: false,
                },
            ),
        ),
{
    law_unnamed_outputs_go_by_place(outputs, "scrollopt"@, 0);
    law_unnamed_outputs_go_by_place(outputs, "ccopt"@, 0);
    law_unnamed_outputs_go_by_place(outputs, "rowcount"@, 0);
    law_options_round_trip(requested.spec_scroll(), requested.spec_concurrency());
}

/// What a response yields has a prepared handle that is not zero, and a cursor
/// has a handle that is not zero either and is open.
pub proof fn law_handles_are_not_zero(
    outputs: Seq<OutputValue>,
    results: Seq<ResultSetModel>,
    infos: Seq<TokenInfo>,
    requested: CursorOpenOptions,
)
    ensures
        match outcome_of(outputs, results, infos, requested) {
            Ok(outcome) => {
                &&& outcome.prepared_handle().spec_i32() != 0
                &&& outcome matches OutcomeModel::Cursor(prepared) ==> {
                    &&& prepared.wf()
                    &&& prepared.cursor_handle.spec_i32() != 0
                    &&& prepared.cursor matches Some(cursor) && !cursor.closed
                }
            },
            Err(_) => true,
        },
{
    broadcast use {PreparedHandle::lemma_wire_value, CursorHandle::lemma_wire_value};

}

} // verus!
