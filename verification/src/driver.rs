//! What the driver reports of a cell: the column's name, its type tag, and
//! the value that the decoder chosen for the tag produced.

use vstd::prelude::*;
use vstd::string::StringSliceAdditionalSpecFns;
use vstd::utf8::encode_utf8_decode_utf8;

verus! {

/// The type tags that have a conversion of their own, and `Other` for every
/// other tag.
#[derive(Debug, Clone, Copy, PartialEq, Eq, Structural)]
pub enum TypeTag {
    Int2,
    Int4,
    Int8,
    Float4,
    Float8,
    Numeric,
    Bool,
    Text,
    Varchar,
    Char,
    Name,
    TimestampTz,
    Timestamp,
    Date,
    Time,
    Uuid,
    Json,
    Jsonb,
    Other,
}

/// The native type as which the driver is asked to decode a cell.
#[derive(Debug, Clone, Copy, PartialEq, Eq, Structural)]
pub enum DecodeKind {
    /// A 16-bit signed integer.
    SmallInt,
    /// A 32-bit signed integer.
    Int,
    /// A 64-bit signed integer.
    BigInt,
    /// A 32-bit floating-point number.
    Real,
    /// A 64-bit floating-point number.
    Double,
    Boolean,
    Text,
    TimestampTz,
    Timestamp,
    Date,
    Time,
    Uuid,
    Json,
}

/// A decoded cell value, in plain integers and text.
///
/// An integer of any width is held in 64 bits. A float of either width is the
/// bit pattern of its binary64 value. An instant is seconds since
/// 1970-01-01T00:00:00 and nanoseconds within the second, a date its day
/// number in the proleptic Gregorian calendar, a time of day seconds since
/// midnight and nanoseconds within the second, a UUID its 128-bit value.
#[derive(Debug, Clone, PartialEq)]
pub enum DriverValue {
    Integer(i64),
    Float(u64),
    Boolean(bool),
    Text(String),
    TimestampTz { secs: i64, nanos: u32 },
    Timestamp { secs: i64, nanos: u32 },
    Date { days: i32 },
    Time { second_of_day: u32, nanos: u32 },
    Uuid(u128),
    Json(serde_json::Value),
}

/// The mathematical model of a [`DriverValue`].
pub enum DriverValueView {
    Integer(int),
    Float(u64),
    Boolean(bool),
    Text(Seq<char>),
    TimestampTz { secs: i64, nanos: u32 },
    Timestamp { secs: i64, nanos: u32 },
    Date { days: i32 },
    Time { second_of_day: u32, nanos: u32 },
    Uuid(u128),
    Json(serde_json::Value),
}

impl View for DriverValue {
    type V = DriverValueView;

    open spec fn view(&self) -> DriverValueView {
        match *self {
            DriverValue::Integer(n) => DriverValueView::Integer(n as int),
            DriverValue::Float(bits) => DriverValueView::Float(bits),
            DriverValue::Boolean(b) => DriverValueView::Boolean(b),
            DriverValue::Text(s) => DriverValueView::Text(s@),
            DriverValue::TimestampTz { secs, nanos } => DriverValueView::TimestampTz { secs, nanos },
            DriverValue::Timestamp { secs, nanos } => DriverValueView::Timestamp { secs, nanos },
            DriverValue::Date { days } => DriverValueView::Date { days },
            DriverValue::Time { second_of_day, nanos } => DriverValueView::Time { second_of_day, nanos },
            DriverValue::Uuid(v) => DriverValueView::Uuid(v),
            DriverValue::Json(doc) => DriverValueView::Json(doc),
        }
    }
}

/// One cell of a fetched row. `value` is `None` where the cell is SQL NULL or
/// the decoder failed on it.
#[derive(Debug, Clone, PartialEq)]
pub struct Cell {
    pub name: String,
    pub data_type: String,
    pub value: Option<DriverValue>,
}

/// The mathematical model of a [`Cell`].
pub struct CellView {
    pub name: Seq<char>,
    pub data_type: Seq<char>,
    pub value: Option<DriverValueView>,
}

impl View for Cell {
    type V = CellView;

    open spec fn view(&self) -> CellView {
        CellView {
            name: self.name@,
            data_type: self.data_type@,
            value: match self.value {
                Some(v) => Some(v@),
                None => None,
            },
        }
    }
}

/// Whether two strings hold the same text.
pub fn same_text(a: &str, b: &str) -> (same: bool)
    ensures
        same == (a@ == b@),
{
    let x = a.as_bytes();
    let y = b.as_bytes();
    proof {
        encode_utf8_decode_utf8(a@);
        encode_utf8_decode_utf8(b@);
    }
    if x.len() != y.len() {
        return false;
    }
    let mut i: usize = 0;
    while i < x.len()
        invariant
            x@ == a.spec_bytes(),
            y@ == b.spec_bytes(),
            x.len() == y.len(),
            i <= x.len(),
            forall|j: int| 0 <= j < i ==> x@[j] == y@[j],
        decreases x.len() - i,
    {
        if x[i] != y[i] {
            return false;
        }
        i += 1;
    }
    assert(x@ =~= y@);
    true
}

/// The dispatch table: the tag that a driver-reported type name stands for.
/// The match is exact and case-sensitive.
pub open spec fn tag_of(name: Seq<char>) -> TypeTag {
    if name == "INT2"@ {
        TypeTag::Int2
    } else if name == "INT4"@ {
        TypeTag::Int4
    } else if name == "INT8"@ {
        TypeTag::Int8
    } else if name == "FLOAT4"@ {
        TypeTag::Float4
    } else if name == "FLOAT8"@ {
        TypeTag::Float8
    } else if name == "NUMERIC"@ {
        TypeTag::Numeric
    } else if name == "BOOL"@ {
        TypeTag::Bool
    } else if name == "TEXT"@ {
        TypeTag::Text
    } else if name == "VARCHAR"@ {
        TypeTag::Varchar
    } else if name == "CHAR"@ {
        TypeTag::Char
    } else if name == "NAME"@ {
        TypeTag::Name
    } else if name == "TIMESTAMPTZ"@ {
        TypeTag::TimestampTz
    } else if name == "TIMESTAMP"@ {
        TypeTag::Timestamp
    } else if name == "DATE"@ {
        TypeTag::Date
    } else if name == "TIME"@ {
        TypeTag::Time
    } else if name == "UUID"@ {
        TypeTag::Uuid
    } else if name == "JSON"@ {
        TypeTag::Json
    } else if name == "JSONB"@ {
        TypeTag::Jsonb
    } else {
        TypeTag::Other
    }
}

/// Looks a driver-reported type name up in the dispatch table.
pub fn classify(name: &str) -> (tag: TypeTag)
    ensures
        tag == tag_of(name@),
{
    if same_text(name, "INT2") {
        TypeTag::Int2
    } else if same_text(name, "INT4") {
        TypeTag::Int4
    } else if same_text(name, "INT8") {
        TypeTag::Int8
    } else if same_text(name, "FLOAT4") {
        TypeTag::Float4
    } else if same_text(name, "FLOAT8") {
        TypeTag::Float8
    } else if same_text(name, "NUMERIC") {
        TypeTag::Numeric
    } else if same_text(name, "BOOL") {
        TypeTag::Bool
    } else if same_text(name, "TEXT") {
        TypeTag::Text
    } else if same_text(name, "VARCHAR") {
        TypeTag::Varchar
    } else if same_text(name, "CHAR") {
        TypeTag::Char
    } else if same_text(name, "NAME") {
        TypeTag::Name
    } else if same_text(name, "TIMESTAMPTZ") {
        TypeTag::TimestampTz
    } else if same_text(name, "TIMESTAMP") {
        TypeTag::Timestamp
    } else if same_text(name, "DATE") {
        TypeTag::Date
    } else if same_text(name, "TIME") {
        TypeTag::Time
    } else if same_text(name, "UUID") {
        TypeTag::Uuid
    } else if same_text(name, "JSON") {
        TypeTag::Json
    } else if same_text(name, "JSONB") {
        TypeTag::Jsonb
    } else {
        TypeTag::Other
    }
}

impl TypeTag {
    /// The native type as which a cell of this tag is decoded. A tag without
    /// a conversion of its own is decoded as plain text.
    pub open spec fn decoder_spec(self) -> DecodeKind {
        match self {
            TypeTag::Int2 => DecodeKind::SmallInt,
            TypeTag::Int4 => DecodeKind::Int,
            TypeTag::Int8 => DecodeKind::BigInt,
            TypeTag::Float4 => DecodeKind::Real,
            TypeTag::Float8 | TypeTag::Numeric => DecodeKind::Double,
            TypeTag::Bool => DecodeKind::Boolean,
            TypeTag::Text | TypeTag::Varchar | TypeTag::Char | TypeTag::Name => DecodeKind::Text,
            TypeTag::TimestampTz => DecodeKind::TimestampTz,
            TypeTag::Timestamp => DecodeKind::Timestamp,
            TypeTag::Date => DecodeKind::Date,
            TypeTag::Time => DecodeKind::Time,
            TypeTag::Uuid => DecodeKind::Uuid,
            TypeTag::Json | TypeTag::Jsonb => DecodeKind::Json,
            TypeTag::Other => DecodeKind::Text,
        }
    }

    /// The native type as which a cell of this tag is decoded.
    pub fn decoder(self) -> (kind: DecodeKind)
        ensures
            kind == self.decoder_spec(),
    {
        match self {
            TypeTag::Int2 => DecodeKind::SmallInt,
            TypeTag::Int4 => DecodeKind::Int,
            TypeTag::Int8 => DecodeKind::BigInt,
            TypeTag::Float4 => DecodeKind::Real,
            TypeTag::Float8 | TypeTag::Numeric => DecodeKind::Double,
            TypeTag::Bool => DecodeKind::Boolean,
            TypeTag::Text | TypeTag::Varchar | TypeTag::Char | TypeTag::Name => DecodeKind::Text,
            TypeTag::TimestampTz => DecodeKind::TimestampTz,
            TypeTag::Timestamp => DecodeKind::Timestamp,
            TypeTag::Date => DecodeKind::Date,
            TypeTag::Time => DecodeKind::Time,
            TypeTag::Uuid => DecodeKind::Uuid,
            TypeTag::Json | TypeTag::Jsonb => DecodeKind::Json,
            TypeTag::Other => DecodeKind::Text,
        }
    }
}

impl DecodeKind {
    /// Whether `value` is what a decoder of this kind produces.
    pub open spec fn produces(self, value: DriverValueView) -> bool {
        match value {
            DriverValueView::Integer(_) => self == DecodeKind::SmallInt || self == DecodeKind::Int
                || self == DecodeKind::BigInt,
            DriverValueView::Float(_) => self == DecodeKind::Real || self == DecodeKind::Double,
            DriverValueView::Boolean(_) => self == DecodeKind::Boolean,
            DriverValueView::Text(_) => self == DecodeKind::Text,
            DriverValueView::TimestampTz { .. } => self == DecodeKind::TimestampTz,
            DriverValueView::Timestamp { .. } => self == DecodeKind::Timestamp,
            DriverValueView::Date { .. } => self == DecodeKind::Date,
            DriverValueView::Time { .. } => self == DecodeKind::Time,
            DriverValueView::Uuid(_) => self == DecodeKind::Uuid,
            DriverValueView::Json(_) => self == DecodeKind::Json,
        }
    }

    /// Whether `value` is what a decoder of this kind produces.
    pub fn yields(self, value: &DriverValue) -> (fits: bool)
        ensures
            fits == self.produces(value@),
    {
        match value {
            DriverValue::Integer(_) => self == DecodeKind::SmallInt || self == DecodeKind::Int
                || self == DecodeKind::BigInt,
            DriverValue::Float(_) => self == DecodeKind::Real || self == DecodeKind::Double,
            DriverValue::Boolean(_) => self == DecodeKind::Boolean,
            DriverValue::Text(_) => self == DecodeKind::Text,
            DriverValue::TimestampTz { .. } => self == DecodeKind::TimestampTz,
            DriverValue::Timestamp { .. } => self == DecodeKind::Timestamp,
            DriverValue::Date { .. } => self == DecodeKind::Date,
            DriverValue::Time { .. } => self == DecodeKind::Time,
            DriverValue::Uuid(_) => self == DecodeKind::Uuid,
            DriverValue::Json(_) => self == DecodeKind::Json,
        }
    }
}

/// The decoder that a driver-reported type name calls for.
pub fn decoder_for(data_type: &str) -> (kind: DecodeKind)
    ensures
        kind == tag_of(data_type@).decoder_spec(),
{
    classify(data_type).decoder()
}

} // verus!
