//! Table schemas as the caller describes them, and the wire schema that is
//! sent along with the rows.

use crate::column::{ColumnType, WireType};
use vstd::prelude::*;

verus! {

/// Name of the one record type that a wire schema describes.
pub const RECORD_NAME: &'static str = "table_schema";

/// Describes one column of a table.
#[derive(Clone, Debug, PartialEq, Eq)]
pub struct FieldDescriptor {
    /// Field number. Numbers start at 1 and grow by 1 from column to column.
    pub number: u32,
    /// Field name.
    pub name: String,
    /// Field type.
    pub typ: ColumnType,
}

/// A `FieldDescriptor` as a mathematical value.
pub struct FieldDescriptorView {
    pub number: u32,
    pub name: Seq<char>,
    pub typ: ColumnType,
}

impl View for FieldDescriptor {
    type V = FieldDescriptorView;

    open spec fn view(&self) -> FieldDescriptorView {
        FieldDescriptorView { number: self.number, name: self.name@, typ: self.typ }
    }
}

/// Describes the columns of a table, in order.
#[derive(Clone, Debug, PartialEq, Eq)]
pub struct TableDescriptor {
    /// Descriptors of all the fields.
    pub field_descriptors: Vec<FieldDescriptor>,
}

impl View for TableDescriptor {
    type V = Seq<FieldDescriptorView>;

    open spec fn view(&self) -> Seq<FieldDescriptorView> {
        self.field_descriptors@.map_values(|fd: FieldDescriptor| fd@)
    }
}

/// One field of a wire schema. A field carries a name, a number and the
/// number of its wire type, and no other attribute: no label, default value,
/// type name or options. The number is held in an integer wide enough for
/// every number that a column can have.
#[derive(Clone, Debug, PartialEq, Eq)]
pub struct WireField {
    pub name: String,
    pub number: i64,
    pub type_number: i32,
}

/// A `WireField` as a mathematical value.
pub struct WireFieldView {
    pub name: Seq<char>,
    pub number: i64,
    pub type_number: i32,
}

impl View for WireField {
    type V = WireFieldView;

    open spec fn view(&self) -> WireFieldView {
        WireFieldView { name: self.name@, number: self.number, type_number: self.type_number }
    }
}

/// The wire schema: one record type with its fields in order. It has no
/// nested types, enums, extensions, reserved ranges or options.
#[derive(Clone, Debug, PartialEq, Eq)]
pub struct WireDescriptor {
    pub name: String,
    pub fields: Vec<WireField>,
}

/// A `WireDescriptor` as a mathematical value.
pub struct WireDescriptorView {
    pub name: Seq<char>,
    pub fields: Seq<WireFieldView>,
}

impl View for WireDescriptor {
    type V = WireDescriptorView;

    open spec fn view(&self) -> WireDescriptorView {
        WireDescriptorView {
            name: self.name@,
            fields: self.fields@.map_values(|f: WireField| f@),
        }
    }
}

/// The wire field that stands for a column.
pub open spec fn wire_field(fd: FieldDescriptorView) -> WireFieldView {
    WireFieldView {
        name: fd.name,
        number: fd.number as i64,
        type_number: fd.typ.spec_wire_type().spec_number(),
    }
}

/// The wire schema that stands for a table.
pub open spec fn wire_descriptor(table: Seq<FieldDescriptorView>) -> WireDescriptorView {
    WireDescriptorView {
        name: RECORD_NAME@,
        fields: table.map_values(|fd: FieldDescriptorView| wire_field(fd)),
    }
}

impl FieldDescriptor {
    /// The wire field for this column. Number and name are copied as they
    /// are: nothing checks that a number is positive or a name non-empty.
    pub fn to_wire(&self) -> (field: WireField)
        ensures
            field@ == wire_field(self@),
    {
        WireField {
            name: self.name.clone(),
            number: self.number as i64,
            type_number: WireType::from(self.typ).number(),
        }
    }
}

impl TableDescriptor {
    /// The wire schema for this table: one field per column, in the
    /// table's order. The table is trusted: nothing checks that its numbers
    /// differ from one another.
    pub fn to_wire(&self) -> (descriptor: WireDescriptor)
        ensures
            descriptor@ == wire_descriptor(self@),
    {
        let mut fields: Vec<WireField> = Vec::new();
        let mut i: usize = 0;
        while i < self.field_descriptors.len()
            invariant
                i <= self.field_descriptors.len(),
                fields@.len() == i,
                forall|j: int|
                    0 <= j < i ==> (#[trigger] fields@[j])@ == wire_field(
                        self.field_descriptors@[j]@,
                    ),
            decreases self.field_descriptors.len() - i,
        {
            fields.push(self.field_descriptors[i].to_wire());
            i += 1;
        }
        let descriptor = WireDescriptor { name: RECORD_NAME.to_string(), fields };
        assert(descriptor@.fields =~= wire_descriptor(self@).fields);
        descriptor
    }
}

/// The wire schema of a table has one field for each column, in the table's
/// order. Each field has its column's name and number, and the number of the
/// wire type that carries the column's type.
pub proof fn lemma_wire_descriptor_fields(table: Seq<FieldDescriptorView>)
    ensures
        wire_descriptor(table).name == RECORD_NAME@,
        wire_descriptor(table).fields.len() == table.len(),
        forall|i: int|
            0 <= i < table.len() ==> {
                let field = #[trigger] wire_descriptor(table).fields[i];
                &&& field.name == table[i].name
                &&& field.number == table[i].number
                &&& field.type_number == table[i].typ.spec_wire_type().spec_number()
            },
{
}

} // verus!
