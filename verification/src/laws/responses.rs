//! Laws of what is read from the server's responses.
use crate::cursor::{Cursor, CursorHandle};
use crate::direct::{
    buffered_model, sets_model, CursorPrepExecOutcome, DirectResultSet, DirectResults,
    OutcomeModel,
};
use crate::error::Error;
use crate::laws::values::{
    law_concurrency_flags_of_an_integer, law_integer_outputs, law_outputs_and_names,
    law_scroll_flags_of_an_integer, law_signed_integers_are_the_same_bits, same_bits,
};
use crate::options::{signed_to_word, CursorConcurrencyOptions, CursorOpenOptions, CursorScrollOptions};
use crate::outputs::{
    agrees, cursor_of, executed_directly, named_int, outcome_of, output_int, placed_int,
    prepared_cursor_of, prepared_handle_of,
};
use crate::flags::{Flag, FlagSet};
use crate::prepared::PreparedCursor;
use crate::types::{BufferedResultSet, Column, ColumnData, OutputValue, PreparedHandle, TokenInfo};
use vstd::prelude::*;

verus! {

/// The output at a place is the integer `value`.
pub open spec fn holds(outputs: Seq<OutputValue>, place: int, value: i32) -> bool {
    0 <= place < outputs.len() && outputs[place].value == ColumnData::<'static>::I32(Some(value))
}

/// The output at a place has the name `name`, with or without an `@`.
pub open spec fn bears(outputs: Seq<OutputValue>, place: int, name: Seq<char>) -> bool {
    &&& 0 <= place < outputs.len()
    &&& outputs[place].name@ == name || outputs[place].name@ == seq!['@'] + name
}

/// The first output with the name `name` is at `place`.
pub open spec fn bears_first(outputs: Seq<OutputValue>, place: int, name: Seq<char>) -> bool {
    &&& bears(outputs, place, name)
    &&& forall|i: int| 0 <= i < place ==> !#[trigger] bears(outputs, i, name)
}

/// The outputs give `value` for `name`: the first output with that name is that
/// integer.
pub open spec fn names(outputs: Seq<OutputValue>, name: Seq<char>, value: i32) -> bool {
    exists|place: int| #[trigger]
        bears_first(outputs, place, name) && holds(outputs, place, value)
}

/// The outputs give no integer for `name`.
pub open spec fn names_none(outputs: Seq<OutputValue>, name: Seq<char>) -> bool {
    forall|value: i32| !#[trigger] names(outputs, name, value)
}

/// The outputs give `value` for a parameter: by its name, or else at its place.
pub open spec fn tells(outputs: Seq<OutputValue>, name: Seq<char>, place: int, value: i32) -> bool {
    names(outputs, name, value) || names_none(outputs, name) && holds(outputs, place, value)
}

/// The outputs give nothing for a parameter.
pub open spec fn is_silent(outputs: Seq<OutputValue>, name: Seq<char>, place: int) -> bool {
    names_none(outputs, name) && forall|value: i32| !#[trigger] holds(outputs, place, value)
}

/// The outputs give `value` for a parameter, or nothing, and then it is the
/// default.
pub open spec fn tells_or(
    outputs: Seq<OutputValue>,
    name: Seq<char>,
    place: int,
    default: i32,
    value: i32,
) -> bool {
    tells(outputs, name, place, value) || is_silent(outputs, name, place) && value == default
}

/// The outputs give `value` for the prepared handle, which has two names.
pub open spec fn tells_handle(outputs: Seq<OutputValue>, value: i32) -> bool {
    ||| names(outputs, "prepared_handle"@, value)
    ||| names_none(outputs, "prepared_handle"@) && tells(outputs, "handle"@, 0, value)
}

/// The outputs give nothing for the prepared handle.
pub open spec fn is_silent_on_handle(outputs: Seq<OutputValue>) -> bool {
    names_none(outputs, "prepared_handle"@) && is_silent(outputs, "handle"@, 0)
}

/// A set has the scroll flags whose bits are set in an integer, and no others.
pub open spec fn is_scroll_of(set: FlagSet<CursorScrollOptions>, value: i32) -> bool {
    exists|word: u32| #[trigger]
        same_bits(word, value) && set.spec_bits() == word & 0xF81F && forall|
            f: CursorScrollOptions,
        | #[trigger]
            set@.contains(f) <==> word & f.spec_bit() != 0
}

/// A set has the concurrency flags whose bits are set in an integer, and no
/// others.
pub open spec fn is_concurrency_of(set: FlagSet<CursorConcurrencyOptions>, value: i32) -> bool {
    exists|word: u32| #[trigger]
        same_bits(word, value) && set.spec_bits() == word & 0x600F && forall|
            f: CursorConcurrencyOptions,
        | #[trigger]
            set@.contains(f) <==> word & f.spec_bit() != 0
}

proof fn lemma_scroll(value: i32)
    ensures
        is_scroll_of(crate::options::scroll_flags_of(value), value),
{
    law_signed_integers_are_the_same_bits(0, value);
    law_scroll_flags_of_an_integer(value, signed_to_word(value));
    assert(same_bits(signed_to_word(value), value));
}

proof fn lemma_concurrency(value: i32)
    ensures
        is_concurrency_of(crate::options::concurrency_flags_of(value), value),
{
    law_signed_integers_are_the_same_bits(0, value);
    law_concurrency_flags_of_an_integer(value, signed_to_word(value));
    assert(same_bits(signed_to_word(value), value));
}

/// What is looked up by name is the first output with that name, if that is an
/// integer, and nothing otherwise.
pub proof fn law_lookup_by_name(outputs: Seq<OutputValue>, name: Seq<char>)
    requires
        name.len() > 0,
        name[0] != '@',
    ensures
        match named_int(outputs, name) {
            Some(value) => names(outputs, name, value),
            None => names_none(outputs, name),
        },
        forall|value: i32| #[trigger]
            names(outputs, name, value) ==> named_int(outputs, name) == Some(value),
    decreases outputs.len(),
{
    if outputs.len() > 0 {
        let rest = outputs.drop_first();
        law_outputs_and_names(outputs[0], name);
        if outputs[0].is_named(name) {
            assert(bears_first(outputs, 0, name));
            assert forall|value: i32| #[trigger] names(outputs, name, value) implies named_int(
                outputs,
                name,
            ) == Some(value) by {
                let place = choose|place: int| #[trigger]
                    bears_first(outputs, place, name) && holds(outputs, place, value);
                if place > 0 {
                    assert(bears(outputs, 0, name));
                }
            }
            if let Some(value) = named_int(outputs, name) {
                law_integer_outputs(outputs[0].value, value);
                assert(holds(outputs, 0, value));
                assert(names(outputs, name, value));
            }
        } else {
            law_lookup_by_name(rest, name);
            assert(!bears(outputs, 0, name));
            assert forall|i: int| 0 <= i < rest.len() implies rest[i] == outputs[i + 1] by {}
            assert forall|value: i32| #[trigger] names(outputs, name, value) implies names(
                rest,
                name,
                value,
            ) by {
                let place = choose|place: int| #[trigger]
                    bears_first(outputs, place, name) && holds(outputs, place, value);
                assert(place > 0);
                assert(rest[place - 1] == outputs[place]);
                assert forall|i: int| 0 <= i < place - 1 implies !#[trigger] bears(
                    rest,
                    i,
                    name,
                ) by {
                    assert(!bears(outputs, i + 1, name));
                }
                assert(bears_first(rest, place - 1, name));
                assert(holds(rest, place - 1, value));
            }
            if let Some(value) = named_int(outputs, name) {
                assert(names(rest, name, value));
                let place = choose|place: int| #[trigger]
                    bears_first(rest, place, name) && holds(rest, place, value);
                assert(rest[place] == outputs[place + 1]);
                assert forall|i: int| 0 <= i < place + 1 implies !#[trigger] bears(
                    outputs,
                    i,
                    name,
                ) by {
                    if i > 0 {
                        assert(!bears(rest, i - 1, name));
                    }
                }
                assert(bears_first(outputs, place + 1, name));
                assert(holds(outputs, place + 1, value));
            }
        }
    } else {
        assert forall|value: i32| !#[trigger] names(outputs, name, value) by {}
    }
}

/// What is looked up by name and place is what the outputs tell.
pub proof fn law_lookup(outputs: Seq<OutputValue>, name: Seq<char>, place: int)
    requires
        name.len() > 0,
        name[0] != '@',
    ensures
        match output_int(outputs, name, place) {
            Some(value) => tells(outputs, name, place, value),
            None => is_silent(outputs, name, place),
        },
{
    law_lookup_by_name(outputs, name);
    if 0 <= place < outputs.len() {
        if let Some(value) = placed_int(outputs, place) {
            law_integer_outputs(outputs[place].value, value);
        }
    }
}

proof fn lemma_handle(outputs: Seq<OutputValue>)
    ensures
        match prepared_handle_of(outputs) {
            Ok(value) => value != 0 && tells_handle(outputs, value),
            Err(text) => {
                ||| is_silent_on_handle(outputs) && text
                    == "sp_cursorprepexec: missing @prepared_handle output parameter"@
                ||| tells_handle(outputs, 0) && text
                    == "sp_cursorprepexec: server returned a zero @prepared_handle"@
            },
        },
{
    reveal_strlit("prepared_handle");
    reveal_strlit("handle");
    law_lookup_by_name(outputs, "prepared_handle"@);
    law_lookup(outputs, "handle"@, 0);
}

/// The cursor that `sp_cursoropen` opened has the handle, the options and the
/// row count that the response gives for them, by name or at the places from
/// the first to the fourth. Options that are not there are none, and a row count
/// that is not there is `-1`. Without a handle there is an error.
pub proof fn law_cursor_of_a_response(
    outputs: Seq<OutputValue>,
    result: Result<Cursor, Error>,
)
    requires
        agrees(result, cursor_of(outputs)),
    ensures
        match result {
            Ok(cursor) => {
                &&& tells(outputs, "cursor"@, 0, cursor@.handle.spec_i32())
                &&& exists|s: i32| #[trigger]
                    tells_or(outputs, "scrollopt"@, 1, 0, s) && is_scroll_of(cursor@.scroll, s)
                &&& exists|k: i32| #[trigger]
                    tells_or(outputs, "ccopt"@, 2, 0, k) && is_concurrency_of(
                        cursor@.concurrency,
                        k,
                    )
                &&& tells_or(outputs, "rowcount"@, 3, -1i32, cursor@.row_count)
                &&& !cursor@.closed
            },
            Err(error) => {
                &&& is_silent(outputs, "cursor"@, 0)
                &&& error is Protocol
                &&& error.text()
                    == "sp_cursoropen: missing @cursor output parameter in server response"@
            },
        },
{
    reveal_strlit("cursor");
    reveal_strlit("scrollopt");
    reveal_strlit("ccopt");
    reveal_strlit("rowcount");
    law_lookup(outputs, "cursor"@, 0);
    law_lookup(outputs, "scrollopt"@, 1);
    law_lookup(outputs, "ccopt"@, 2);
    law_lookup(outputs, "rowcount"@, 3);
    if let Ok(cursor) = result {
        let s = crate::outputs::or_default(output_int(outputs, "scrollopt"@, 1), 0);
        let k = crate::outputs::or_default(output_int(outputs, "ccopt"@, 2), 0);
        lemma_scroll(s);
        lemma_concurrency(k);
        assert(tells_or(outputs, "scrollopt"@, 1, 0, s));
        assert(tells_or(outputs, "ccopt"@, 2, 0, k));
        CursorHandle::lemma_wire_value(output_int(outputs, "cursor"@, 0)->0);
    }
}

/// A prepared cursor has the options and the row count that the response gives
/// for them, by name or at the places from the third to the fifth.
pub open spec fn has_told_options(outputs: Seq<OutputValue>, prepared: PreparedCursor) -> bool {
    &&& exists|s: i32| #[trigger]
        tells_or(outputs, "scrollopt"@, 2, 0, s) && is_scroll_of(prepared@.scroll, s)
    &&& exists|k: i32| #[trigger]
        tells_or(outputs, "ccopt"@, 3, 0, k) && is_concurrency_of(prepared@.concurrency, k)
    &&& tells_or(outputs, "rowcount"@, 4, -1i32, prepared@.row_count)
}

/// The statement and cursor that `sp_cursorprepexec` prepared have the handles,
/// the options and the row count that the response gives for them, by name or at
/// the five places. Options that are not there are none, and a row count that is
/// not there is `-1`. A handle that is not there, or is zero, is an error; the
/// prepared handle counts first.
pub proof fn law_prepared_cursor_of_a_response(
    outputs: Seq<OutputValue>,
    metadata: Option<Seq<Column>>,
    result: Result<PreparedCursor, Error>,
)
    requires
        agrees(result, prepared_cursor_of(outputs, metadata)),
    ensures
        match result {
            Ok(prepared) => {
                &&& prepared@.prepared_handle.spec_i32() != 0
                &&& tells_handle(outputs, prepared@.prepared_handle.spec_i32())
                &&& prepared@.cursor_handle.spec_i32() != 0
                &&& tells(outputs, "cursor"@, 1, prepared@.cursor_handle.spec_i32())
                &&& has_told_options(outputs, prepared)
                &&& prepared@.metadata == metadata
                &&& !prepared@.released
                &&& prepared@.cursor matches Some(cursor) && {
                    &&& cursor.handle == prepared@.cursor_handle
                    &&& cursor.scroll == prepared@.scroll
                    &&& cursor.concurrency == prepared@.concurrency
                    &&& cursor.row_count == prepared@.row_count
                    &&& !cursor.closed
                }
            },
            Err(error) => {
                &&& error is Protocol
                &&& {
                    ||| is_silent_on_handle(outputs) && error.text()
                        == "sp_cursorprepexec: missing @prepared_handle output parameter"@
                    ||| tells_handle(outputs, 0) && error.text()
                        == "sp_cursorprepexec: server returned a zero @prepared_handle"@
                    ||| {
                        &&& exists|h: i32| h != 0 && #[trigger] tells_handle(outputs, h)
                        &&& is_silent(outputs, "cursor"@, 1)
                        &&& error.text() == "sp_cursorprepexec: missing @cursor output parameter"@
                    }
                    ||| {
                        &&& exists|h: i32| h != 0 && #[trigger] tells_handle(outputs, h)
                        &&& tells(outputs, "cursor"@, 1, 0)
                        &&& error.text() == "sp_cursorprepexec: server returned a zero @cursor"@
                    }
                }
            },
        },
{
    reveal_strlit("cursor");
    reveal_strlit("scrollopt");
    reveal_strlit("ccopt");
    reveal_strlit("rowcount");
    lemma_handle(outputs);
    law_lookup(outputs, "cursor"@, 1);
    law_lookup(outputs, "scrollopt"@, 2);
    law_lookup(outputs, "ccopt"@, 3);
    law_lookup(outputs, "rowcount"@, 4);
    if let Ok(handle) = prepared_handle_of(outputs) {
        PreparedHandle::lemma_wire_value(handle);
    }
    if let Some(handle) = output_int(outputs, "cursor"@, 1) {
        CursorHandle::lemma_wire_value(handle);
    }
    if let Ok(prepared) = result {
        let s = crate::outputs::or_default(output_int(outputs, "scrollopt"@, 2), 0);
        let k = crate::outputs::or_default(output_int(outputs, "ccopt"@, 3), 0);
        lemma_scroll(s);
        lemma_concurrency(k);
        assert(tells_or(outputs, "scrollopt"@, 2, 0, s));
        assert(tells_or(outputs, "ccopt"@, 3, 0, k));
    }
}

/// Outputs without names, in order, all integers.
pub open spec fn are_unnamed_integers(outputs: Seq<OutputValue>, values: Seq<i32>) -> bool {
    &&& outputs.len() == values.len()
    &&& forall|i: int|
        0 <= i < values.len() ==> (#[trigger] outputs[i]).name@.len() == 0 && outputs[i].value
            == ColumnData::<'static>::I32(Some(values[i]))
}

proof fn lemma_unnamed(outputs: Seq<OutputValue>, values: Seq<i32>, name: Seq<char>)
    requires
        are_unnamed_integers(outputs, values),
        name.len() > 0,
    ensures
        names_none(outputs, name),
        forall|place: int, value: i32| #[trigger]
            holds(outputs, place, value) <==> 0 <= place < values.len() && values[place] == value,
{
    assert forall|place: int| !#[trigger] bears(outputs, place, name) by {
        if 0 <= place < outputs.len() {
            assert(outputs[place].name@.len() == 0);
        }
    }
    assert forall|value: i32| !#[trigger] names(outputs, name, value) by {}
    assert forall|place: int, value: i32| #[trigger] holds(outputs, place, value) <==> 0 <= place
        < values.len() && values[place] == value by {}
}

/// Five unnamed integers are the prepared handle, the cursor handle, the scroll
/// options, the concurrency options and the row count, in this order.
pub proof fn law_five_unnamed_outputs(
    outputs: Seq<OutputValue>,
    h: i32,
    c: i32,
    s: i32,
    k: i32,
    n: i32,
    metadata: Option<Seq<Column>>,
    result: Result<PreparedCursor, Error>,
)
    requires
        are_unnamed_integers(outputs, seq![h, c, s, k, n]),
        h != 0,
        c != 0,
        agrees(result, prepared_cursor_of(outputs, metadata)),
    ensures
        result matches Ok(prepared) && {
            &&& prepared@.prepared_handle.spec_i32() == h
            &&& prepared@.cursor_handle.spec_i32() == c
            &&& is_scroll_of(prepared@.scroll, s)
            &&& is_concurrency_of(prepared@.concurrency, k)
            &&& prepared@.row_count == n
            &&& prepared@.metadata == metadata
        },
{
    let values = seq![h, c, s, k, n];
    reveal_strlit("prepared_handle");
    reveal_strlit("handle");
    reveal_strlit("cursor");
    reveal_strlit("scrollopt");
    reveal_strlit("ccopt");
    reveal_strlit("rowcount");
    lemma_unnamed(outputs, values, "prepared_handle"@);
    lemma_unnamed(outputs, values, "handle"@);
    lemma_unnamed(outputs, values, "cursor"@);
    lemma_unnamed(outputs, values, "scrollopt"@);
    lemma_unnamed(outputs, values, "ccopt"@);
    lemma_unnamed(outputs, values, "rowcount"@);
    assert(holds(outputs, 0, h));
    assert(holds(outputs, 1, c));
    assert(holds(outputs, 2, s));
    assert(holds(outputs, 3, k));
    assert(holds(outputs, 4, n));
    law_prepared_cursor_of_a_response(outputs, metadata, result);
}

/// Four unnamed integers are the cursor handle, the scroll options, the
/// concurrency options and the row count, in this order.
pub proof fn law_four_unnamed_outputs(
    outputs: Seq<OutputValue>,
    c: i32,
    s: i32,
    k: i32,
    n: i32,
    result: Result<Cursor, Error>,
)
    requires
        are_unnamed_integers(outputs, seq![c, s, k, n]),
        agrees(result, cursor_of(outputs)),
    ensures
        result matches Ok(cursor) && {
            &&& cursor@.handle.spec_i32() == c
            &&& is_scroll_of(cursor@.scroll, s)
            &&& is_concurrency_of(cursor@.concurrency, k)
            &&& cursor@.row_count == n
        },
{
    let values = seq![c, s, k, n];
    reveal_strlit("cursor");
    reveal_strlit("scrollopt");
    reveal_strlit("ccopt");
    reveal_strlit("rowcount");
    lemma_unnamed(outputs, values, "cursor"@);
    lemma_unnamed(outputs, values, "scrollopt"@);
    lemma_unnamed(outputs, values, "ccopt"@);
    lemma_unnamed(outputs, values, "rowcount"@);
    assert(holds(outputs, 0, c));
    assert(holds(outputs, 1, s));
    assert(holds(outputs, 2, k));
    assert(holds(outputs, 3, n));
    law_cursor_of_a_response(outputs, result);
}

/// Whether one of the messages says that the statement was executed directly.
pub open spec fn says_direct(infos: Seq<TokenInfo>) -> bool {
    exists|i: int| 0 <= i < infos.len() && (#[trigger] infos[i]).number == 16954
}

/// A set of flags is the one that was requested, as far as its word goes.
pub open spec fn is_requested_scroll(
    set: FlagSet<CursorScrollOptions>,
    requested: FlagSet<CursorScrollOptions>,
) -> bool {
    set.spec_bits() == requested.spec_bits() && set@ == requested@
}

/// A set of flags is the one that was requested, as far as its word goes.
pub open spec fn is_requested_concurrency(
    set: FlagSet<CursorConcurrencyOptions>,
    requested: FlagSet<CursorConcurrencyOptions>,
) -> bool {
    set.spec_bits() == requested.spec_bits() && set@ == requested@
}

/// A direct execution goes by what the response names: an option without a name
/// is as requested, and a row count without a name is `-1`, whatever stands at
/// their places.
pub open spec fn has_named_options(
    outputs: Seq<OutputValue>,
    requested: CursorOpenOptions,
    direct: DirectResults,
) -> bool {
    &&& {
        ||| names_none(outputs, "scrollopt"@) && is_requested_scroll(
            direct@.scroll,
            requested.spec_scroll(),
        )
        ||| exists|s: i32| #[trigger]
            names(outputs, "scrollopt"@, s) && is_scroll_of(direct@.scroll, s)
    }
    &&& {
        ||| names_none(outputs, "ccopt"@) && is_requested_concurrency(
            direct@.concurrency,
            requested.spec_concurrency(),
        )
        ||| exists|k: i32| #[trigger]
            names(outputs, "ccopt"@, k) && is_concurrency_of(direct@.concurrency, k)
    }
    &&& {
        ||| names_none(outputs, "rowcount"@) && direct@.row_count == -1
        ||| names(outputs, "rowcount"@, direct@.row_count)
    }
}

/// A response with a prepared handle is a direct execution exactly where a
/// message says so, with all the result sets, in order. Any other response with
/// a prepared handle is read as a prepared cursor, which knows the columns of
/// the first result set.
pub proof fn law_outcome_of_a_response(
    outputs: Seq<OutputValue>,
    sets: Seq<BufferedResultSet>,
    infos: Seq<TokenInfo>,
    requested: CursorOpenOptions,
    result: Result<CursorPrepExecOutcome, Error>,
)
    requires
        requested.spec_scroll().wf(),
        requested.spec_concurrency().wf(),
        agrees(result, outcome_of(outputs, buffered_model(sets), infos, requested)),
    ensures
        match result {
            Ok(CursorPrepExecOutcome::Direct(direct)) => {
                &&& says_direct(infos)
                &&& direct@.prepared_handle.spec_i32() != 0
                &&& tells_handle(outputs, direct@.prepared_handle.spec_i32())
                &&& has_named_options(outputs, requested, direct)
                &&& direct@.results.len() == sets.len()
                &&& forall|i: int|
                    0 <= i < sets.len() ==> (#[trigger] direct@.results[i]).columns
                        == sets[i].columns@ && direct@.results[i].rows == sets[i].rows@
                &&& !direct@.released
            },
            Ok(CursorPrepExecOutcome::Cursor(prepared)) => {
                &&& !says_direct(infos)
                &&& prepared@.prepared_handle.spec_i32() != 0
                &&& tells_handle(outputs, prepared@.prepared_handle.spec_i32())
                &&& prepared@.cursor_handle.spec_i32() != 0
                &&& tells(outputs, "cursor"@, 1, prepared@.cursor_handle.spec_i32())
                &&& has_told_options(outputs, prepared)
                &&& sets.len() == 0 ==> prepared@.metadata is None
                &&& sets.len() > 0 ==> prepared@.metadata == Some(sets[0].columns@)
                &&& !prepared@.released
                &&& prepared@.cursor is Some
            },
            Err(error) => {
                &&& error is Protocol
                &&& {
                    ||| is_silent_on_handle(outputs) && error.text()
                        == "sp_cursorprepexec: missing @prepared_handle output parameter"@
                    ||| tells_handle(outputs, 0) && error.text()
                        == "sp_cursorprepexec: server returned a zero @prepared_handle"@
                    ||| {
                        &&& !says_direct(infos)
                        &&& is_silent(outputs, "cursor"@, 1)
                        &&& error.text() == "sp_cursorprepexec: missing @cursor output parameter"@
                    }
                    ||| {
                        &&& !says_direct(infos)
                        &&& tells(outputs, "cursor"@, 1, 0)
                        &&& error.text() == "sp_cursorprepexec: server returned a zero @cursor"@
                    }
                }
            },
        },
{
    let results = buffered_model(sets);
    assert(results.len() == sets.len());
    assert(forall|i: int|
        0 <= i < sets.len() ==> (#[trigger] results[i]).columns == sets[i].columns@
            && results[i].rows == sets[i].rows@);
    assert(executed_directly(infos) <==> says_direct(infos));
    reveal_strlit("scrollopt");
    reveal_strlit("ccopt");
    reveal_strlit("rowcount");
    lemma_handle(outputs);
    law_lookup_by_name(outputs, "scrollopt"@);
    law_lookup_by_name(outputs, "ccopt"@);
    law_lookup_by_name(outputs, "rowcount"@);
    if let Ok(handle) = prepared_handle_of(outputs) {
        PreparedHandle::lemma_wire_value(handle);
    }
    match result {
        Ok(CursorPrepExecOutcome::Direct(direct)) => {
            crate::options::law_options_round_trip(
                requested.spec_scroll(),
                requested.spec_concurrency(),
            );
            if let Some(s) = named_int(outputs, "scrollopt"@) {
                lemma_scroll(s);
            }
            if let Some(k) = named_int(outputs, "ccopt"@) {
                lemma_concurrency(k);
            }
        },
        Ok(CursorPrepExecOutcome::Cursor(prepared)) => {
            let metadata = crate::outputs::first_columns(results);
            law_prepared_cursor_of_a_response(outputs, metadata, Ok(prepared));
        },
        Err(error) => {
            if prepared_handle_of(outputs) is Ok {
                let metadata = crate::outputs::first_columns(results);
                law_prepared_cursor_of_a_response(outputs, metadata, Err(error));
                reveal_strlit("cursor");
                law_lookup(outputs, "cursor"@, 1);
            }
        },
    }
}

/// A result set has the columns and rows that it was buffered with.
pub proof fn law_result_sets_are_kept(
    set: BufferedResultSet,
    sets: Seq<BufferedResultSet>,
    results: Seq<DirectResultSet>,
)
    requires
        sets_model(results) == buffered_model(sets),
    ensures
        set@.columns == set.columns@,
        set@.rows == set.rows@,
        results.len() == sets.len(),
        forall|i: int|
            0 <= i < sets.len() ==> (#[trigger] results[i])@.columns == sets[i].columns@
                && results[i]@.rows == sets[i].rows@,
{
    assert(sets_model(results).len() == results.len());
    assert(buffered_model(sets).len() == sets.len());
    assert forall|i: int| 0 <= i < sets.len() implies (#[trigger] results[i])@.columns
        == sets[i].columns@ && results[i]@.rows == sets[i].rows@ by {
        assert(sets_model(results)[i] == results[i]@);
        assert(buffered_model(sets)[i] == sets[i]@);
    }
}

/// An outcome is what it holds, with the handle of that.
pub proof fn law_outcomes_are_what_they_hold(prepared: PreparedCursor, direct: DirectResults)
    ensures
        CursorPrepExecOutcome::Cursor(prepared)@ == OutcomeModel::Cursor(prepared@),
        CursorPrepExecOutcome::Direct(direct)@ == OutcomeModel::Direct(direct@),
        CursorPrepExecOutcome::Cursor(prepared)@.prepared_handle() == prepared@.prepared_handle,
        CursorPrepExecOutcome::Direct(direct)@.prepared_handle() == direct@.prepared_handle,
{
}

} // verus!
