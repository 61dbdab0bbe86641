//! Text that requests and error messages are made of.
use std::borrow::Cow;
use vstd::prelude::*;
use vstd::string::{StrSliceExecFns, StringExecFns};

verus! {

/// The character of a decimal digit.
pub open spec fn digit_char(digit: nat) -> char {
    ('0' as nat + digit) as char
}

/// `n` in decimal, without leading zeros.
pub open spec fn decimal(n: nat) -> Seq<char>
    decreases n,
{
    if n < 10 {
        seq![digit_char(n)]
    } else {
        decimal(n / 10).push(digit_char(n % 10))
    }
}

/// The number that a string of decimal digits stands for.
pub open spec fn numeral_value(digits: Seq<char>) -> int
    decreases digits.len(),
{
    if digits.len() == 0 {
        0
    } else {
        10 * numeral_value(digits.drop_last()) + (digits.last() as int - '0' as int)
    }
}

/// Reading a decimal numeral gives the number back.
pub proof fn lemma_decimal_value(n: nat)
    ensures
        decimal(n).len() > 0,
        numeral_value(decimal(n)) == n,
    decreases n,
{
    if n < 10 {
        assert(decimal(n).drop_last() =~= Seq::<char>::empty());
        assert(numeral_value(Seq::<char>::empty()) == 0);
        assert(digit_char(n) as int == '0' as int + n);
    } else {
        lemma_decimal_value(n / 10);
        assert(decimal(n).drop_last() =~= decimal(n / 10));
        assert(digit_char(n % 10) as int == '0' as int + n % 10);
    }
}

/// The text of one decimal digit.
fn digit_text(digit: usize) -> (text: &'static str)
    requires
        digit < 10,
    ensures
        text@ == seq![digit_char(digit as nat)],
{
    proof {
        reveal_strlit("0");
        reveal_strlit("1");
        reveal_strlit("2");
        reveal_strlit("3");
        reveal_strlit("4");
        reveal_strlit("5");
        reveal_strlit("6");
        reveal_strlit("7");
        reveal_strlit("8");
        reveal_strlit("9");
    }
    match digit {
        0 => "0",
        1 => "1",
        2 => "2",
        3 => "3",
        4 => "4",
        5 => "5",
        6 => "6",
        7 => "7",
        8 => "8",
        _ => "9",
    }
}

/// Append `n` in decimal to `text`.
pub fn push_decimal(text: &mut String, n: usize)
    ensures
        final(text)@ == old(text)@ + decimal(n as nat),
    decreases n,
{
    if n >= 10 {
        push_decimal(text, n / 10);
    }
    text.append(digit_text(n % 10));
}

/// What a caller may give as a text: a borrowed or an owned string.
pub trait IntoText<'a>: Sized {
    /// The text.
    spec fn spec_text(self) -> Seq<char>;

    /// The text.
    fn into_text(self) -> (text: Cow<'a, str>)
        ensures
            text@ == self.spec_text(),
    ;
}

impl<'a> IntoText<'a> for &'a str {
    open spec fn spec_text(self) -> Seq<char> {
        self@
    }

    fn into_text(self) -> (text: Cow<'a, str>) {
        Cow::Borrowed(self)
    }
}

impl<'a> IntoText<'a> for &'a String {
    open spec fn spec_text(self) -> Seq<char> {
        self@
    }

    fn into_text(self) -> (text: Cow<'a, str>) {
        Cow::Borrowed(self.as_str())
    }
}

impl<'a> IntoText<'a> for String {
    open spec fn spec_text(self) -> Seq<char> {
        self@
    }

    fn into_text(self) -> (text: Cow<'a, str>) {
        Cow::Owned(self)
    }
}

impl<'a> IntoText<'a> for Cow<'a, str> {
    open spec fn spec_text(self) -> Seq<char> {
        self@
    }

    fn into_text(self) -> (text: Cow<'a, str>) {
        self
    }
}

/// The name of the bound parameter at `index`: `@P1` is the first.
pub open spec fn bound_name(index: nat) -> Seq<char> {
    seq!['@', 'P'] + decimal(index + 1)
}

/// The name of the bound parameter at `index`.
pub fn bound_parameter_name(index: usize) -> (name: String)
    requires
        index < usize::MAX,
    ensures
        name@ == bound_name(index as nat),
{
    proof {
        reveal_strlit("@P");
    }
    let mut name: String = String::from_str("@P");
    push_decimal(&mut name, index + 1);
    assert(name@ =~= bound_name(index as nat));
    name
}

/// Bound parameters at different places have different names.
pub proof fn law_bound_names_are_distinct(i: nat, j: nat)
    requires
        bound_name(i) == bound_name(j),
    ensures
        i == j,
{
    lemma_decimal_value(i + 1);
    lemma_decimal_value(j + 1);
    assert(bound_name(i).skip(2) =~= decimal(i + 1));
    assert(bound_name(j).skip(2) =~= decimal(j + 1));
}

/// A parameter name without its leading `@`, if it has one.
pub open spec fn without_sigil(name: Seq<char>) -> Seq<char> {
    if name.len() > 0 && name[0] == '@' {
        name.skip(1)
    } else {
        name
    }
}

/// A parameter name without its leading `@`, if it has one.
fn strip_sigil(name: &str) -> (bare: String)
    ensures
        bare@ == without_sigil(name@),
{
    let len: usize = name.unicode_len();
    if len > 0 && name.get_char(0) == '@' {
        let bare: &str = name.substring_char(1, len);
        assert(bare@ =~= name@.skip(1));
        bare.to_owned()
    } else {
        name.to_owned()
    }
}

/// Whether two parameter names are the same, with or without a leading `@`.
pub fn same_parameter_name(a: &str, b: &str) -> (same: bool)
    ensures
        same == (without_sigil(a@) == without_sigil(b@)),
{
    strip_sigil(a) == strip_sigil(b)
}

} // verus!
