//! The append request: the one message that a call sends.

use crate::schema::{
    wire_descriptor, FieldDescriptorView, TableDescriptor, WireDescriptor, WireDescriptorView,
};
use crate::stream_name::{StreamName, StreamNameView};
use vstd::prelude::*;

verus! {

/// How the service fills a column for which a row has no value.
#[derive(Clone, Copy, Debug, PartialEq, Eq, Structural)]
pub enum MissingValueInterpretation {
    /// The service decides.
    Unspecified,
    /// The column is set to null.
    NullValue,
    /// The column is set to its default value.
    DefaultValue,
}

/// One column's own rule for missing values.
#[derive(Clone, Debug, PartialEq, Eq)]
pub struct ColumnInterpretation {
    pub column: String,
    pub interpretation: MissingValueInterpretation,
}

/// Rows in their wire form, with the schema that says how to read them.
#[derive(Clone, Debug, PartialEq, Eq)]
pub struct ProtoData {
    /// Schema of the rows.
    pub writer_schema: WireDescriptor,
    /// The rows, each one serialized by its own encoder.
    pub serialized_rows: Vec<Vec<u8>>,
}

/// A `ProtoData` as a mathematical value.
pub struct ProtoDataView {
    pub writer_schema: WireDescriptorView,
    pub serialized_rows: Seq<Seq<u8>>,
}

/// Serialized rows as sequences of bytes.
pub open spec fn rows_view(rows: Seq<Vec<u8>>) -> Seq<Seq<u8>> {
    rows.map_values(|row: Vec<u8>| row@)
}

impl View for ProtoData {
    type V = ProtoDataView;

    open spec fn view(&self) -> ProtoDataView {
        ProtoDataView {
            writer_schema: self.writer_schema@,
            serialized_rows: rows_view(self.serialized_rows@),
        }
    }
}

/// Asks the service to append rows to a stream.
#[derive(Clone, Debug, PartialEq, Eq)]
pub struct AppendRowsRequest {
    /// Path of the stream that the rows go to.
    pub write_stream: String,
    /// Position at which to append. `None` lets the service choose it.
    pub offset: Option<i64>,
    /// Schema and rows.
    pub rows: ProtoData,
    /// Id by which the service's logs can be matched to the caller.
    pub trace_id: String,
    /// Rules for missing values, column by column. No column occurs twice.
    pub missing_value_interpretations: Vec<ColumnInterpretation>,
    /// Rule for the columns that have none of their own.
    pub default_missing_value_interpretation: MissingValueInterpretation,
}

/// An `AppendRowsRequest` as a mathematical value.
pub struct AppendRowsRequestView {
    pub write_stream: Seq<char>,
    pub offset: Option<i64>,
    pub rows: ProtoDataView,
    pub trace_id: Seq<char>,
    pub missing_value_interpretations: Seq<(Seq<char>, MissingValueInterpretation)>,
    pub default_missing_value_interpretation: MissingValueInterpretation,
}

impl AppendRowsRequestView {
    /// No column has two rules for missing values: the rules are a map from
    /// columns to interpretations, written down as a list.
    pub open spec fn well_formed(self) -> bool {
        forall|i: int, j: int|
            0 <= i < j < self.missing_value_interpretations.len() ==> (
            #[trigger] self.missing_value_interpretations[i]).0 != (
            #[trigger] self.missing_value_interpretations[j]).0
    }
}

impl View for AppendRowsRequest {
    type V = AppendRowsRequestView;

    open spec fn view(&self) -> AppendRowsRequestView {
        AppendRowsRequestView {
            write_stream: self.write_stream@,
            offset: self.offset,
            rows: self.rows@,
            trace_id: self.trace_id@,
            missing_value_interpretations: self.missing_value_interpretations@.map_values(
                |c: ColumnInterpretation| (c.column@, c.interpretation),
            ),
            default_missing_value_interpretation: self.default_missing_value_interpretation,
        }
    }
}

/// The rows section for a table and its serialized rows: the table's wire
/// schema, and the rows as they were given.
pub open spec fn proto_data(table: Seq<FieldDescriptorView>, rows: Seq<Seq<u8>>) -> ProtoDataView {
    ProtoDataView { writer_schema: wire_descriptor(table), serialized_rows: rows }
}

/// The request that appends `rows` to `stream`: it names the stream by its
/// path, leaves the position to the service and sets no rule for missing
/// values.
pub open spec fn append_rows_request(
    stream: StreamNameView,
    table: Seq<FieldDescriptorView>,
    rows: Seq<Seq<u8>>,
    trace_id: Seq<char>,
) -> AppendRowsRequestView {
    AppendRowsRequestView {
        write_stream: stream.path(),
        offset: None,
        rows: proto_data(table, rows),
        trace_id,
        missing_value_interpretations: Seq::empty(),
        default_missing_value_interpretation: MissingValueInterpretation::Unspecified,
    }
}

/// The request that appends rows to a stream has no column with two rules
/// for missing values, as it has no such rule at all.
pub proof fn lemma_append_rows_request_well_formed(
    stream: StreamNameView,
    table: Seq<FieldDescriptorView>,
    rows: Seq<Seq<u8>>,
    trace_id: Seq<char>,
)
    ensures
        append_rows_request(stream, table, rows, trace_id).well_formed(),
        append_rows_request(stream, table, rows, trace_id).missing_value_interpretations.len()
            == 0,
{
}

/// Puts the wire schema of `table_descriptor` and the serialized rows
/// together. The rows are taken as they are: that their fields carry the
/// numbers of the schema is the caller's part.
pub fn create_rows(table_descriptor: &TableDescriptor, serialized_rows: Vec<Vec<u8>>) -> (data:
    ProtoData)
    ensures
        data@ == proto_data(table_descriptor@, rows_view(serialized_rows@)),
{
    ProtoData { writer_schema: table_descriptor.to_wire(), serialized_rows }
}

impl AppendRowsRequest {
    /// Builds the request that appends `serialized_rows` to `stream_name`.
    pub fn new(
        stream_name: &StreamName,
        table_descriptor: &TableDescriptor,
        serialized_rows: Vec<Vec<u8>>,
        trace_id: String,
    ) -> (request: AppendRowsRequest)
        ensures
            request@ == append_rows_request(
                stream_name@,
                table_descriptor@,
                rows_view(serialized_rows@),
                trace_id@,
            ),
            request@.well_formed(),
    {
        let request = AppendRowsRequest {
            write_stream: stream_name.to_string(),
            offset: None,
            rows: create_rows(table_descriptor, serialized_rows),
            trace_id,
            missing_value_interpretations: Vec::new(),
            default_missing_value_interpretation: MissingValueInterpretation::Unspecified,
        };
        assert(request@.missing_value_interpretations =~= Seq::empty());
        request
    }
}

} // verus!
