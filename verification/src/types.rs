//! Values and descriptions of values that requests carry and responses bring.
use crate::text::{same_parameter_name, without_sigil};
use std::borrow::Cow;
use std::sync::Arc;
use vstd::prelude::*;

verus! {

/// A decimal number: `value` divided by ten to the power of `scale`.
#[derive(Debug, Clone, Copy, PartialEq, Eq)]
pub struct Numeric {
    /// The number without its decimal point.
    pub value: i128,
    /// How many digits follow the decimal point.
    pub scale: u8,
}

/// A value of a column or a parameter. `None` is a SQL `NULL`.
#[derive(Debug, Clone)]
pub enum ColumnData<'a> {
    /// A 32-bit signed integer.
    I32(Option<i32>),
    /// Text.
    String(Option<Cow<'a, str>>),
    /// Bytes.
    Binary(Option<Cow<'a, [u8]>>),
    /// A decimal number.
    Numeric(Option<Numeric>),
    /// A value of any other type, in its wire encoding.
    Other {
        /// The type token of the value.
        token: u8,
        /// The encoded value.
        data: Option<Vec<u8>>,
    },
}

impl<'a> ColumnData<'a> {
    /// The integer in a non-null 32-bit integer; nothing for all else.
    pub open spec fn as_int(self) -> Option<i32> {
        match self {
            ColumnData::I32(value) => value,
            _ => None,
        }
    }
}

/// A type whose values all take the same room on the wire.
#[derive(Debug, Clone, Copy, PartialEq, Eq)]
pub enum FixedLenType {
    Null,
    Int1,
    Bit,
    Int2,
    Int4,
    Datetime4,
    Float4,
    Money,
    Datetime,
    Float8,
    Money4,
    Int8,
}

/// A type whose values carry their length.
#[derive(Debug, Clone, Copy, PartialEq, Eq)]
pub enum VarLenType {
    Guid,
    Intn,
    Bitn,
    Decimaln,
    Numericn,
    Floatn,
    Money,
    Datetimen,
    Daten,
    Timen,
    Datetime2,
    DatetimeOffsetn,
    BigVarBin,
    BigVarChar,
    BigBinary,
    BigChar,
    NVarchar,
    NChar,
    Xml,
    Udt,
    Text,
    Image,
    NText,
    SSVariant,
}

/// How text is compared and sorted.
#[derive(Debug, Clone, Copy, PartialEq, Eq)]
pub struct Collation {
    /// Locale and comparison flags.
    pub info: u32,
    /// The sort order.
    pub sort_id: u8,
}

/// A variable-length type with its declared length.
#[derive(Debug, Clone, Copy, PartialEq, Eq)]
pub struct VarLenContext {
    /// The type.
    pub ty: VarLenType,
    /// The declared length.
    pub len: usize,
    /// The collation of a text type.
    pub collation: Option<Collation>,
}

/// The declared wire type of a parameter.
#[derive(Debug, Clone, Copy, PartialEq, Eq)]
pub enum TypeInfo {
    /// A fixed-length type.
    FixedLen(FixedLenType),
    /// A type with a declared length.
    VarLenSized(VarLenContext),
    /// A decimal type.
    VarLenSizedPrecision {
        /// The type.
        ty: VarLenType,
        /// The room a value takes.
        size: usize,
        /// The number of digits.
        precision: u8,
        /// The number of digits after the decimal point.
        scale: u8,
    },
}

/// The type of a result column.
#[derive(Debug, Clone, Copy, PartialEq, Eq)]
pub enum ColumnType {
    Null,
    Bit,
    Int1,
    Int2,
    Int4,
    Int8,
    Datetime4,
    Float4,
    Float8,
    Money,
    Datetime,
    Money4,
    Guid,
    Intn,
    Bitn,
    Decimaln,
    Numericn,
    Floatn,
    Datetimen,
    Daten,
    Timen,
    Datetime2,
    DatetimeOffsetn,
    BigVarBin,
    BigVarChar,
    BigBinary,
    BigChar,
    NVarchar,
    NChar,
    Xml,
    Udt,
    Text,
    Image,
    NText,
    SSVariant,
}

/// The description of a result column.
#[derive(Debug, PartialEq, Eq)]
pub struct Column {
    /// The column's name.
    pub name: String,
    /// The column's type.
    pub column_type: ColumnType,
}

impl Clone for Column {
    fn clone(&self) -> (copy: Self)
        ensures
            copy == *self,
    {
        Column { name: self.name.clone(), column_type: self.column_type }
    }
}

/// One row of a result set.
#[derive(Debug)]
pub struct Row {
    /// The columns of the row.
    pub columns: Arc<Vec<Column>>,
    /// The values, one for each column.
    pub data: Vec<ColumnData<'static>>,
    /// Which result set of the response the row belongs to.
    pub result_index: usize,
}

/// A result set that has been read to its end.
#[derive(Debug)]
pub struct BufferedResultSet {
    /// The columns of the result set.
    pub columns: Arc<Vec<Column>>,
    /// The rows, in the order the server sent them.
    pub rows: Vec<Row>,
}

/// An informational message from the server.
#[derive(Debug, Clone)]
pub struct TokenInfo {
    /// The message number.
    pub number: u32,
    /// The state.
    pub state: u8,
    /// The severity.
    pub class: u8,
    /// The text.
    pub message: String,
    /// The server that sent it.
    pub server: String,
    /// The procedure that was running.
    pub procedure: String,
    /// The line in the batch or procedure.
    pub line: u32,
}

/// The value of an output parameter in a response.
#[derive(Debug)]
pub struct OutputValue {
    /// The parameter's name; empty where the server sent none.
    pub name: String,
    /// The ordinal that the server gave the parameter.
    pub ordinal: u16,
    /// The value.
    pub value: ColumnData<'static>,
}

impl OutputValue {
    /// Whether this output goes by the name `name`. A leading `@` on either
    /// side makes no difference; an output without a name goes by none.
    pub open spec fn is_named(self, name: Seq<char>) -> bool {
        self.name@.len() > 0 && without_sigil(self.name@) == without_sigil(name)
    }

    /// Whether this output goes by the name `name`. A leading `@` on either
    /// side makes no difference; an output without a name goes by none.
    pub fn matches_name(&self, name: &str) -> (matched: bool)
        ensures
            matched == self.is_named(name@),
    {
        !self.name.as_str().is_empty() && same_parameter_name(self.name.as_str(), name)
    }

    /// The value, if it is a 32-bit integer and not `NULL`.
    pub fn get_i32(&self) -> (value: Option<i32>)
        ensures
            value == self.value.as_int(),
    {
        match &self.value {
            ColumnData::I32(value) => *value,
            _ => None,
        }
    }
}

/// The server's handle of a prepared statement.
#[derive(Debug, Clone, Copy, PartialEq, Eq, Hash)]
pub struct PreparedHandle(i32);

impl PreparedHandle {
    /// The wire value of the handle.
    pub closed spec fn spec_i32(self) -> i32 {
        self.0
    }

    /// The handle with the wire value `raw`.
    pub closed spec fn spec_from_i32(raw: i32) -> Self {
        PreparedHandle(raw)
    }

    /// The handle with the wire value `raw`.
    pub fn from_i32(raw: i32) -> (handle: Self)
        ensures
            handle.spec_i32() == raw,
            handle == Self::spec_from_i32(raw),
    {
        PreparedHandle(raw)
    }

    /// The wire value of the handle.
    pub fn as_i32(self) -> (raw: i32)
        ensures
            raw == self.spec_i32(),
    {
        self.0
    }

    /// A handle is its wire value.
    pub broadcast proof fn lemma_wire_value(raw: i32)
        ensures
            #[trigger] Self::spec_from_i32(raw).spec_i32() == raw,
    {
    }
}

} // verus!
