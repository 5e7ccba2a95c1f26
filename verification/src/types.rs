//! Column types and table references.

use vstd::prelude::*;

verus! {

/// Width of a year column.
#[derive(Clone, Copy, Debug, PartialEq, Eq, Structural)]
pub enum MySqlYear {
    Two,
    Four,
}

/// The fields that an interval column is restricted to.
#[derive(Clone, Copy, Debug, PartialEq, Eq, Structural)]
pub enum PgInterval {
    Year,
    Month,
    Day,
    Hour,
    Minute,
    Second,
    YearToMonth,
    DayToHour,
    DayToMinute,
    DayToSecond,
    HourToMinute,
    HourToSecond,
    MinuteToSecond,
}

/// The type of a column, independent of any dialect.
#[derive(Debug, PartialEq, Eq)]
pub enum ColumnType {
    /// Fixed-length character string, with an optional length.
    Char(Option<u32>),
    /// Variable-length character string, with an optional limit.
    String(Option<u32>),
    /// Character string of unlimited length.
    Text,
    /// Signed integer of the smallest width.
    TinyInteger(Option<u32>),
    /// Signed integer of small width.
    SmallInteger(Option<u32>),
    /// Signed integer of standard width.
    Integer(Option<u32>),
    /// Signed integer of large width.
    BigInteger(Option<u32>),
    /// Unsigned integer of the smallest width.
    TinyUnsigned(Option<u32>),
    /// Unsigned integer of small width.
    SmallUnsigned(Option<u32>),
    /// Unsigned integer of standard width.
    Unsigned(Option<u32>),
    /// Unsigned integer of large width.
    BigUnsigned(Option<u32>),
    /// Single-precision floating point number.
    Float(Option<u32>),
    /// Double-precision floating point number.
    Double(Option<u32>),
    /// Fixed-point number, with optional precision and scale.
    Decimal(Option<(u32, u32)>),
    /// Date and time without a time zone, with optional sub-second precision.
    DateTime(Option<u32>),
    /// Timestamp, with optional sub-second precision.
    Timestamp(Option<u32>),
    /// Timestamp with a time zone, with optional sub-second precision.
    TimestampWithTimeZone(Option<u32>),
    /// Time of day, with optional sub-second precision.
    Time(Option<u32>),
    /// Calendar date.
    Date,
    /// Year of fixed width.
    Year(Option<MySqlYear>),
    /// Time span, with an optional field restriction and optional sub-second precision.
    Interval(Option<PgInterval>, Option<u32>),
    /// Binary string, with an optional length.
    Binary(Option<u32>),
    /// Binary string bounded by a length.
    VarBinary(u32),
    /// Bit string, with an optional length.
    Bit(Option<u32>),
    /// Bit string bounded by a length.
    VarBit(u32),
    /// Truth value.
    Boolean,
    /// Currency amount, with optional precision and scale.
    Money(Option<(u32, u32)>),
    /// JSON document stored as text.
    Json,
    /// JSON document stored in decomposed binary form.
    JsonBinary,
    /// Universally unique identifier.
    Uuid,
    /// A type written out in the dialect's own words.
    Custom(String),
    /// An enumeration, referred to by its name.
    Enum { name: String, variants: Vec<String> },
    /// Array of the given element type.
    Array(Box<ColumnType>),
    /// IPv4 or IPv6 network.
    Cidr,
    /// IPv4 or IPv6 host address.
    Inet,
    /// MAC address.
    MacAddr,
}

/// A table, named alone or within a schema or a database.
#[derive(Clone, Debug, PartialEq, Eq)]
pub enum TableRef {
    /// A table by its name.
    Table(String),
    /// Schema, then table.
    SchemaTable(String, String),
    /// Database, then schema, then table.
    DatabaseSchemaTable(String, String, String),
}

/// The bare name of a column type, without its parameters.
#[derive(Clone, Copy, Debug, PartialEq, Eq, Structural)]
pub enum TypeName {
    Char,
    String,
    Text,
    TinyInteger,
    SmallInteger,
    Integer,
    BigInteger,
    TinyUnsigned,
    SmallUnsigned,
    Unsigned,
    BigUnsigned,
    Float,
    Double,
    Decimal,
    DateTime,
    Timestamp,
    TimestampWithTimeZone,
    Time,
    Date,
    Year,
    Interval,
    Binary,
    VarBinary,
    Bit,
    VarBit,
    Boolean,
    Money,
    Json,
    JsonBinary,
    Uuid,
    Custom,
    Enum,
    Array,
    Cidr,
    Inet,
    MacAddr,
}

impl TypeName {
    /// The name as written in diagnostics.
    pub open spec fn text(self) -> Seq<char> {
        match self {
            TypeName::Char => "Char"@,
            TypeName::String => "String"@,
            TypeName::Text => "Text"@,
            TypeName::TinyInteger => "TinyInteger"@,
            TypeName::SmallInteger => "SmallInteger"@,
            TypeName::Integer => "Integer"@,
            TypeName::BigInteger => "BigInteger"@,
            TypeName::TinyUnsigned => "TinyUnsigned"@,
            TypeName::SmallUnsigned => "SmallUnsigned"@,
            TypeName::Unsigned => "Unsigned"@,
            TypeName::BigUnsigned => "BigUnsigned"@,
            TypeName::Float => "Float"@,
            TypeName::Double => "Double"@,
            TypeName::Decimal => "Decimal"@,
            TypeName::DateTime => "DateTime"@,
            TypeName::Timestamp => "Timestamp"@,
            TypeName::TimestampWithTimeZone => "TimestampWithTimeZone"@,
            TypeName::Time => "Time"@,
            TypeName::Date => "Date"@,
            TypeName::Year => "Year"@,
            TypeName::Interval => "Interval"@,
            TypeName::Binary => "Binary"@,
            TypeName::VarBinary => "VarBinary"@,
            TypeName::Bit => "Bit"@,
            TypeName::VarBit => "VarBit"@,
            TypeName::Boolean => "Boolean"@,
            TypeName::Money => "Money"@,
            TypeName::Json => "Json"@,
            TypeName::JsonBinary => "JsonBinary"@,
            TypeName::Uuid => "Uuid"@,
            TypeName::Custom => "Custom"@,
            TypeName::Enum => "Enum"@,
            TypeName::Array => "Array"@,
            TypeName::Cidr => "Cidr"@,
            TypeName::Inet => "Inet"@,
            TypeName::MacAddr => "MacAddr"@,
        }
    }

    /// The name as written in diagnostics.
    pub fn as_str(&self) -> (s: &'static str)
        ensures
            s@ == self.text(),
    {
        match self {
            TypeName::Char => "Char",
            TypeName::String => "String",
            TypeName::Text => "Text",
            TypeName::TinyInteger => "TinyInteger",
            TypeName::SmallInteger => "SmallInteger",
            TypeName::Integer => "Integer",
            TypeName::BigInteger => "BigInteger",
            TypeName::TinyUnsigned => "TinyUnsigned",
            TypeName::SmallUnsigned => "SmallUnsigned",
            TypeName::Unsigned => "Unsigned",
            TypeName::BigUnsigned => "BigUnsigned",
            TypeName::Float => "Float",
            TypeName::Double => "Double",
            TypeName::Decimal => "Decimal",
            TypeName::DateTime => "DateTime",
            TypeName::Timestamp => "Timestamp",
            TypeName::TimestampWithTimeZone => "TimestampWithTimeZone",
            TypeName::Time => "Time",
            TypeName::Date => "Date",
            TypeName::Year => "Year",
            TypeName::Interval => "Interval",
            TypeName::Binary => "Binary",
            TypeName::VarBinary => "VarBinary",
            TypeName::Bit => "Bit",
            TypeName::VarBit => "VarBit",
            TypeName::Boolean => "Boolean",
            TypeName::Money => "Money",
            TypeName::Json => "Json",
            TypeName::JsonBinary => "JsonBinary",
            TypeName::Uuid => "Uuid",
            TypeName::Custom => "Custom",
            TypeName::Enum => "Enum",
            TypeName::Array => "Array",
            TypeName::Cidr => "Cidr",
            TypeName::Inet => "Inet",
            TypeName::MacAddr => "MacAddr",
        }
    }
}

impl ColumnType {
    /// Whether `other` says what this type says: the same variant with the
    /// same parameters and the same names, down to the element of an array.
    pub open spec fn agrees_with(&self, other: &ColumnType) -> bool
        decreases self,
    {
        match (self, other) {
            (
                ColumnType::Enum { name, variants },
                ColumnType::Enum { name: other_name, variants: other_variants },
            ) => name@ == other_name@ && variants@ == other_variants@,
            (ColumnType::Array(element), ColumnType::Array(other_element)) => element.agrees_with(
                other_element,
            ),
            _ => self == other,
        }
    }
}

impl Clone for ColumnType {
    /// A copy that agrees with this type.
    fn clone(&self) -> (copy: ColumnType)
        ensures
            self.agrees_with(&copy),
        decreases self,
    {
        match self {
            ColumnType::Char(parameter) => ColumnType::Char(*parameter),
            ColumnType::String(parameter) => ColumnType::String(*parameter),
            ColumnType::Text => ColumnType::Text,
            ColumnType::TinyInteger(parameter) => ColumnType::TinyInteger(*parameter),
            ColumnType::SmallInteger(parameter) => ColumnType::SmallInteger(*parameter),
            ColumnType::Integer(parameter) => ColumnType::Integer(*parameter),
            ColumnType::BigInteger(parameter) => ColumnType::BigInteger(*parameter),
            ColumnType::TinyUnsigned(parameter) => ColumnType::TinyUnsigned(*parameter),
            ColumnType::SmallUnsigned(parameter) => ColumnType::SmallUnsigned(*parameter),
            ColumnType::Unsigned(parameter) => ColumnType::Unsigned(*parameter),
            ColumnType::BigUnsigned(parameter) => ColumnType::BigUnsigned(*parameter),
            ColumnType::Float(parameter) => ColumnType::Float(*parameter),
            ColumnType::Double(parameter) => ColumnType::Double(*parameter),
            ColumnType::Decimal(parameter) => ColumnType::Decimal(*parameter),
            ColumnType::DateTime(parameter) => ColumnType::DateTime(*parameter),
            ColumnType::Timestamp(parameter) => ColumnType::Timestamp(*parameter),
            ColumnType::TimestampWithTimeZone(parameter) => ColumnType::TimestampWithTimeZone(
                *parameter,
            ),
            ColumnType::Time(parameter) => ColumnType::Time(*parameter),
            ColumnType::Date => ColumnType::Date,
            ColumnType::Year(parameter) => ColumnType::Year(*parameter),
            ColumnType::Interval(fields, precision) => ColumnType::Interval(*fields, *precision),
            ColumnType::Binary(parameter) => ColumnType::Binary(*parameter),
            ColumnType::VarBinary(parameter) => ColumnType::VarBinary(*parameter),
            ColumnType::Bit(parameter) => ColumnType::Bit(*parameter),
            ColumnType::VarBit(parameter) => ColumnType::VarBit(*parameter),
            ColumnType::Boolean => ColumnType::Boolean,
            ColumnType::Money(parameter) => ColumnType::Money(*parameter),
            ColumnType::Json => ColumnType::Json,
            ColumnType::JsonBinary => ColumnType::JsonBinary,
            ColumnType::Uuid => ColumnType::Uuid,
            ColumnType::Custom(name) => ColumnType::Custom(name.clone()),
            ColumnType::Enum { name, variants } => ColumnType::Enum {
                name: name.clone(),
                variants: variants.clone(),
            },
            ColumnType::Array(element) => ColumnType::Array(Box::new((**element).clone())),
            ColumnType::Cidr => ColumnType::Cidr,
            ColumnType::Inet => ColumnType::Inet,
            ColumnType::MacAddr => ColumnType::MacAddr,
        }
    }
}

impl ColumnType {
    /// The name of this type's variant.
    pub open spec fn spec_name(&self) -> TypeName {
        match self {
            ColumnType::Char(_) => TypeName::Char,
            ColumnType::String(_) => TypeName::String,
            ColumnType::Text => TypeName::Text,
            ColumnType::TinyInteger(_) => TypeName::TinyInteger,
            ColumnType::SmallInteger(_) => TypeName::SmallInteger,
            ColumnType::Integer(_) => TypeName::Integer,
            ColumnType::BigInteger(_) => TypeName::BigInteger,
            ColumnType::TinyUnsigned(_) => TypeName::TinyUnsigned,
            ColumnType::SmallUnsigned(_) => TypeName::SmallUnsigned,
            ColumnType::Unsigned(_) => TypeName::Unsigned,
            ColumnType::BigUnsigned(_) => TypeName::BigUnsigned,
            ColumnType::Float(_) => TypeName::Float,
            ColumnType::Double(_) => TypeName::Double,
            ColumnType::Decimal(_) => TypeName::Decimal,
            ColumnType::DateTime(_) => TypeName::DateTime,
            ColumnType::Timestamp(_) => TypeName::Timestamp,
            ColumnType::TimestampWithTimeZone(_) => TypeName::TimestampWithTimeZone,
            ColumnType::Time(_) => TypeName::Time,
            ColumnType::Date => TypeName::Date,
            ColumnType::Year(_) => TypeName::Year,
            ColumnType::Interval(_, _) => TypeName::Interval,
            ColumnType::Binary(_) => TypeName::Binary,
            ColumnType::VarBinary(_) => TypeName::VarBinary,
            ColumnType::Bit(_) => TypeName::Bit,
            ColumnType::VarBit(_) => TypeName::VarBit,
            ColumnType::Boolean => TypeName::Boolean,
            ColumnType::Money(_) => TypeName::Money,
            ColumnType::Json => TypeName::Json,
            ColumnType::JsonBinary => TypeName::JsonBinary,
            ColumnType::Uuid => TypeName::Uuid,
            ColumnType::Custom(_) => TypeName::Custom,
            ColumnType::Enum { .. } => TypeName::Enum,
            ColumnType::Array(_) => TypeName::Array,
            ColumnType::Cidr => TypeName::Cidr,
            ColumnType::Inet => TypeName::Inet,
            ColumnType::MacAddr => TypeName::MacAddr,
        }
    }

    /// The name of this type's variant.
    #[verifier::when_used_as_spec(spec_name)]
    pub fn name(&self) -> (n: TypeName)
        ensures
            n == self.spec_name(),
    {
        match self {
            ColumnType::Char(_) => TypeName::Char,
            ColumnType::String(_) => TypeName::String,
            ColumnType::Text => TypeName::Text,
            ColumnType::TinyInteger(_) => TypeName::TinyInteger,
            ColumnType::SmallInteger(_) => TypeName::SmallInteger,
            ColumnType::Integer(_) => TypeName::Integer,
            ColumnType::BigInteger(_) => TypeName::BigInteger,
            ColumnType::TinyUnsigned(_) => TypeName::TinyUnsigned,
            ColumnType::SmallUnsigned(_) => TypeName::SmallUnsigned,
            ColumnType::Unsigned(_) => TypeName::Unsigned,
            ColumnType::BigUnsigned(_) => TypeName::BigUnsigned,
            ColumnType::Float(_) => TypeName::Float,
            ColumnType::Double(_) => TypeName::Double,
            ColumnType::Decimal(_) => TypeName::Decimal,
            ColumnType::DateTime(_) => TypeName::DateTime,
            ColumnType::Timestamp(_) => TypeName::Timestamp,
            ColumnType::TimestampWithTimeZone(_) => TypeName::TimestampWithTimeZone,
            ColumnType::Time(_) => TypeName::Time,
            ColumnType::Date => TypeName::Date,
            ColumnType::Year(_) => TypeName::Year,
            ColumnType::Interval(_, _) => TypeName::Interval,
            ColumnType::Binary(_) => TypeName::Binary,
            ColumnType::VarBinary(_) => TypeName::VarBinary,
            ColumnType::Bit(_) => TypeName::Bit,
            ColumnType::VarBit(_) => TypeName::VarBit,
            ColumnType::Boolean => TypeName::Boolean,
            ColumnType::Money(_) => TypeName::Money,
            ColumnType::Json => TypeName::Json,
            ColumnType::JsonBinary => TypeName::JsonBinary,
            ColumnType::Uuid => TypeName::Uuid,
            ColumnType::Custom(_) => TypeName::Custom,
            ColumnType::Enum { .. } => TypeName::Enum,
            ColumnType::Array(_) => TypeName::Array,
            ColumnType::Cidr => TypeName::Cidr,
            ColumnType::Inet => TypeName::Inet,
            ColumnType::MacAddr => TypeName::MacAddr,
        }
    }
}

} // verus!
