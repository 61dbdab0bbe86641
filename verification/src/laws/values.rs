//! Laws of the values that travel: integers, flags, names and numerals.
use crate::cursor::CursorHandle;
use crate::error::Error;
use crate::flags::{lemma_singleton, Flag, FlagSet, IntoFlags};
use crate::options::{
    concurrency_flags_of, scroll_flags_of, signed_to_word, word_to_signed,
    CursorConcurrencyOptions, CursorScrollOptions,
};
use crate::rpc::RpcStatus;
use crate::text::{decimal, without_sigil, IntoText};
use crate::types::{ColumnData, OutputValue, PreparedHandle};
use std::borrow::Cow;
use vstd::prelude::*;
use vstd::std_specs::convert::FromSpec;
use vstd::std_specs::ops::BitOrSpec;

verus! {

/// Whether an unsigned word and a signed integer are the same 32 bits.
pub open spec fn same_bits(word: u32, value: i32) -> bool {
    word == value || word == value + 0x1_0000_0000
}

/// A word and the signed integer that stands for it are the same bits, and so
/// are an integer and its word. Each has only one such partner.
pub proof fn law_signed_integers_are_the_same_bits(word: u32, value: i32)
    ensures
        i32::MIN <= word_to_signed(word) <= i32::MAX,
        same_bits(word, word_to_signed(word) as i32),
        same_bits(signed_to_word(value), value),
        same_bits(word, value) ==> word_to_signed(word) == value && signed_to_word(value) == word,
{
}

/// The bits that the scroll options have on the wire.
pub proof fn law_scroll_option_bits(option: CursorScrollOptions)
    ensures
        option.spec_bit() == match option {
            CursorScrollOptions::Keyset => 1u32,
            CursorScrollOptions::Dynamic => 2u32,
            CursorScrollOptions::ForwardOnly => 4u32,
            CursorScrollOptions::Static => 8u32,
            CursorScrollOptions::Fast => 16u32,
            CursorScrollOptions::KeysetDrivenPlusParams => 2048u32,
            CursorScrollOptions::ParameterizedStmt => 4096u32,
            CursorScrollOptions::AutoFetch => 8192u32,
            CursorScrollOptions::AutoClose => 16384u32,
            CursorScrollOptions::CheckAcceptedTypes => 32768u32,
        },
{
}

/// The bits that the concurrency options have on the wire.
pub proof fn law_concurrency_option_bits(option: CursorConcurrencyOptions)
    ensures
        option.spec_bit() == match option {
            CursorConcurrencyOptions::ReadOnly => 1u32,
            CursorConcurrencyOptions::ScrollLocks => 2u32,
            CursorConcurrencyOptions::OptimisticCc => 4u32,
            CursorConcurrencyOptions::OptimisticCcVal => 8u32,
            CursorConcurrencyOptions::AllowDirect => 8192u32,
            CursorConcurrencyOptions::UpdateInPlace => 16384u32,
        },
{
}

/// A flag is in a set if and only if its bit is set in the set's word.
pub proof fn law_members_are_bits<F: Flag>(set: FlagSet<F>, flag: F)
    ensures
        set@.contains(flag) <==> set.spec_bits() & flag.spec_bit() != 0,
{
}

/// A set made of a word has the known flags of the word, and no other bits.
pub proof fn law_truncation_keeps_the_known_flags<F: Flag>(word: u32, flag: F)
    ensures
        FlagSet::<F>::spec_from_bits_truncate(word)@.contains(flag) <==> word & flag.spec_bit()
            != 0,
        FlagSet::<F>::spec_from_bits_truncate(word).spec_bits() == word & F::spec_mask(),
{
    FlagSet::<F>::lemma_truncated(word);
}

/// The union of two sets has the flags of both, and the bits of both words.
pub proof fn law_union_joins_the_words<F: Flag>(a: FlagSet<F>, b: FlagSet<F>, flag: F)
    requires
        a.wf(),
        b.wf(),
    ensures
        a.spec_union(b)@.contains(flag) <==> a@.contains(flag) || b@.contains(flag),
        a.spec_union(b).spec_bits() == a.spec_bits() | b.spec_bits(),
        a.bitor_spec(b) == a.spec_union(b),
{
    FlagSet::<F>::lemma_union(a, b);
    FlagSet::<F>::lemma_union_word(a, b);
}

/// One flag stands for the set of itself alone, and a set for itself.
pub proof fn law_what_stands_for_flags<F: Flag>(flag: F, set: FlagSet<F>)
    ensures
        IntoFlags::<F>::stands_for(flag) == set![flag],
        IntoFlags::<F>::spec_into_flags(flag)@ == set![flag],
        IntoFlags::<F>::spec_into_flags(flag).spec_bits() == flag.spec_bit(),
        IntoFlags::<F>::stands_for(set) == set@,
        IntoFlags::<F>::spec_into_flags(set) == set,
{
    lemma_singleton(flag);
}

/// Options joined by `|` are a set of just these, with the bits of both.
pub proof fn law_joined_options(
    a: CursorScrollOptions,
    b: CursorScrollOptions,
    c: CursorConcurrencyOptions,
    d: CursorConcurrencyOptions,
)
    ensures
        a.bitor_spec(b)@ == set![a, b],
        a.bitor_spec(b).spec_bits() == a.spec_bit() | b.spec_bit(),
        c.bitor_spec(d)@ == set![c, d],
        c.bitor_spec(d).spec_bits() == c.spec_bit() | d.spec_bit(),
{
    lemma_singleton(a);
    lemma_singleton(b);
    lemma_singleton(c);
    lemma_singleton(d);
    let (x, y) = (
        IntoFlags::<CursorScrollOptions>::spec_into_flags(a),
        IntoFlags::<CursorScrollOptions>::spec_into_flags(b),
    );
    FlagSet::lemma_union(x, y);
    FlagSet::lemma_union_word(x, y);
    assert(x@.union(y@) =~= set![a, b]);
    let (x, y) = (
        IntoFlags::<CursorConcurrencyOptions>::spec_into_flags(c),
        IntoFlags::<CursorConcurrencyOptions>::spec_into_flags(d),
    );
    FlagSet::lemma_union(x, y);
    FlagSet::lemma_union_word(x, y);
    assert(x@.union(y@) =~= set![c, d]);
}

/// A set joined with one more option by `|` has its bit as well.
pub proof fn law_set_joined_with_a_flag<F: Flag>(set: FlagSet<F>, flag: F)
    requires
        set.wf(),
    ensures
        set.bitor_spec(flag)@ == set@.insert(flag),
        set.bitor_spec(flag).spec_bits() == set.spec_bits() | flag.spec_bit(),
{
    lemma_singleton(flag);
    let one = IntoFlags::<F>::spec_into_flags(flag);
    FlagSet::lemma_union(set, one);
    FlagSet::lemma_union_word(set, one);
    assert(set@.union(one@) =~= set@.insert(flag));
}

/// The scroll flags in a server's integer are the known flags whose bits are
/// set in it.
pub proof fn law_scroll_flags_of_an_integer(value: i32, word: u32)
    requires
        same_bits(word, value),
    ensures
        forall|f: CursorScrollOptions|
            #![trigger scroll_flags_of(value)@.contains(f)]
            scroll_flags_of(value)@.contains(f) <==> word & f.spec_bit() != 0,
        scroll_flags_of(value).spec_bits() == word & 0xF81F,
{
    assert(signed_to_word(value) == word);
    FlagSet::<CursorScrollOptions>::lemma_truncated(word);
}

/// The concurrency flags in a server's integer are the known flags whose bits
/// are set in it.
pub proof fn law_concurrency_flags_of_an_integer(value: i32, word: u32)
    requires
        same_bits(word, value),
    ensures
        forall|f: CursorConcurrencyOptions|
            #![trigger concurrency_flags_of(value)@.contains(f)]
            concurrency_flags_of(value)@.contains(f) <==> word & f.spec_bit() != 0,
        concurrency_flags_of(value).spec_bits() == word & 0x600F,
{
    assert(signed_to_word(value) == word);
    FlagSet::<CursorConcurrencyOptions>::lemma_truncated(word);
}

/// The one status bit of a request parameter is the lowest.
pub proof fn law_status_bit(status: RpcStatus)
    ensures
        status == RpcStatus::ByRefValue,
        status.spec_bit() == 1,
        RpcStatus::spec_mask() == 1,
{
}

/// Handles are their wire values: different handles have different ones.
pub proof fn law_handles_are_wire_values(raw: i32, a: CursorHandle, b: CursorHandle)
    ensures
        CursorHandle::spec_from_i32(raw).spec_i32() == raw,
        PreparedHandle::spec_from_i32(raw).spec_i32() == raw,
        <i32 as FromSpec<CursorHandle>>::from_spec(a) == a.spec_i32(),
        a.spec_i32() == b.spec_i32() ==> a == b,
{
    CursorHandle::lemma_wire_value(raw);
    PreparedHandle::lemma_wire_value(raw);
    CursorHandle::lemma_same_value(a, b);
}

/// A numeral below ten is one digit. Any other is the numeral of its tenth,
/// followed by one digit.
pub proof fn law_numerals(n: nat)
    ensures
        n < 10 ==> decimal(n).len() == 1 && decimal(n)[0] as int == 48 + n,
        n >= 10 ==> decimal(n).drop_last() == decimal(n / 10) && decimal(n).last() as int == 48
            + n % 10,
{
    if n >= 10 {
        assert(decimal(n).drop_last() =~= decimal(n / 10));
    }
}

/// What is given as a text is taken as it is.
pub proof fn law_texts_are_taken_as_they_are<'a>(
    a: &'a str,
    b: String,
    c: Cow<'a, str>,
    d: &'a String,
)
    ensures
        a.spec_text() == a@,
        b.spec_text() == b@,
        c.spec_text() == c@,
        d.spec_text() == d@,
{
}

/// The text of an error is the text that it holds.
pub proof fn law_error_text(text: Cow<'static, str>)
    ensures
        Error::Protocol(text).text() == text@,
{
}

/// An output holds an integer if it is a non-null 32-bit integer, and then
/// that one.
pub proof fn law_integer_outputs<'a>(value: ColumnData<'a>, number: i32)
    ensures
        value.as_int() == Some(number) <==> value == ColumnData::I32(Some(number)),
{
}

/// An output goes by a name if its own name is that one, with or without an
/// `@` in front.
pub proof fn law_outputs_and_names(output: OutputValue, name: Seq<char>)
    requires
        name.len() > 0,
        name[0] != '@',
    ensures
        output.is_named(name) <==> output.name@ == name || output.name@ == seq!['@'] + name,
        output.is_named(seq!['@'] + name) == output.is_named(name),
        output.name@.len() == 0 ==> !output.is_named(name),
{
    let own = output.name@;
    let marked = seq!['@'] + name;
    assert(marked.skip(1) =~= name);
    assert(without_sigil(marked) == name);
    if own.len() > 0 && own[0] == '@' {
        assert(own =~= seq!['@'] + own.skip(1));
    }
}

/// A procedure's status is the signed integer with the bits of the word that
/// the server sent.
pub proof fn law_return_status(word: u32, status: i32)
    requires
        status == word_to_signed(word),
    ensures
        same_bits(word, status),
{
}

/// One `@` in front of a name makes no difference; all else of it does.
pub proof fn law_one_sigil_is_left_out(name: Seq<char>)
    ensures
        without_sigil(seq!['@'] + name) == name,
        name.len() == 0 || name[0] != '@' ==> without_sigil(name) == name,
{
    let marked = seq!['@'] + name;
    assert(marked.skip(1) =~= name);
}

} // verus!
