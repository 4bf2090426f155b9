//! Logical column types and the wire types that carry them.

use vstd::prelude::*;
use vstd::std_specs::convert::FromSpec;

verus! {

/// Logical type of a table column.
#[derive(Clone, Copy, Debug, PartialEq, Eq, Structural)]
pub enum ColumnType {
    Bool,
    Bytes,
    Date,
    Datetime,
    Json,
    Int64,
    Float64,
    String,
    Time,
    Timestamp,
}

/// Wire type of a schema field: the few protobuf field types that columns
/// are carried in.
#[derive(Clone, Copy, Debug, PartialEq, Eq, Structural)]
pub enum WireType {
    Float,
    Int64,
    Bool,
    String,
    Bytes,
}

impl WireType {
    /// The number that the protobuf descriptor format assigns to this type.
    pub open spec fn spec_number(self) -> i32 {
        match self {
            WireType::Float => 2,
            WireType::Int64 => 3,
            WireType::Bool => 8,
            WireType::String => 9,
            WireType::Bytes => 12,
        }
    }

    /// The number under which a field descriptor records this type.
    pub fn number(self) -> (n: i32)
        ensures
            n == self.spec_number(),
    {
        descriptor_type_number(self)
    }
}

/// Trusted: `i32::from` on `prost_types::field_descriptor_proto::Type`, which
/// returns the variant's discriminant. The contract repeats the discriminants
/// that the enum declares for the five variants used here.
#[verifier::external_body]
fn descriptor_type_number(t: WireType) -> (n: i32)
    ensures
        n == t.spec_number(),
{
    i32::from(match t {
        WireType::Float => prost_types::field_descriptor_proto::Type::Float,
        WireType::Int64 => prost_types::field_descriptor_proto::Type::Int64,
        WireType::Bool => prost_types::field_descriptor_proto::Type::Bool,
        WireType::String => prost_types::field_descriptor_proto::Type::String,
        WireType::Bytes => prost_types::field_descriptor_proto::Type::Bytes,
    })
}

impl ColumnType {
    /// The wire type that carries a column of this type. Dates, times and
    /// JSON travel as pre-formatted strings, so many column types share one
    /// wire type.
    pub open spec fn spec_wire_type(self) -> WireType {
        match self {
            ColumnType::Bool => WireType::Bool,
            ColumnType::Bytes => WireType::Bytes,
            ColumnType::Int64 => WireType::Int64,
            ColumnType::Float64 => WireType::Float,
            ColumnType::Date
            | ColumnType::Datetime
            | ColumnType::Json
            | ColumnType::String
            | ColumnType::Time
            | ColumnType::Timestamp => WireType::String,
        }
    }
}

impl From<ColumnType> for WireType {
    /// Maps a column type to the wire type that carries it. Every column
    /// type has one.
    fn from(value: ColumnType) -> (t: WireType) {
        match value {
            ColumnType::Bool => WireType::Bool,
            ColumnType::Bytes => WireType::Bytes,
            ColumnType::Date => WireType::String,
            ColumnType::Datetime => WireType::String,
            ColumnType::Json => WireType::String,
            ColumnType::Int64 => WireType::Int64,
            ColumnType::Float64 => WireType::Float,
            ColumnType::String => WireType::String,
            ColumnType::Time => WireType::String,
            ColumnType::Timestamp => WireType::String,
        }
    }
}

impl vstd::std_specs::convert::FromSpecImpl<ColumnType> for WireType {
    open spec fn obeys_from_spec() -> bool {
        true
    }

    open spec fn from_spec(value: ColumnType) -> WireType {
        value.spec_wire_type()
    }
}

/// Every column type has one wire type, the one that the conversion returns:
/// booleans, bytes and 64-bit integers have their own, 64-bit floats have
/// the float type, and every other column type is carried as a string.
pub proof fn lemma_wire_type_of_column(column: ColumnType)
    ensures
        <WireType as FromSpec<ColumnType>>::obeys_from_spec(),
        <WireType as FromSpec<ColumnType>>::from_spec(column) == column.spec_wire_type(),
        column.spec_wire_type() == (match column {
            ColumnType::Bool => WireType::Bool,
            ColumnType::Bytes => WireType::Bytes,
            ColumnType::Int64 => WireType::Int64,
            ColumnType::Float64 => WireType::Float,
            _ => WireType::String,
        }),
{
}

} // verus!
