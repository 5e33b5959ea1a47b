//! The fixed five-column layout of a snapshot.

use vstd::prelude::*;
use vstd::string::StringExecFns;
use crate::model::Entity;

verus! {

/// The type of the values of one column.
#[derive(Debug, Clone, Copy, PartialEq, Eq, Structural)]
pub enum ColumnType {
    /// UTF-8 text with 64-bit offsets.
    LargeUtf8,
    /// UTF-8 text with 32-bit offsets.
    Utf8,
    /// IEEE-754 binary64 numbers.
    Float64,
}

/// One column of a layout: its name, the type of its values and whether a
/// value may be absent.
#[derive(Debug, Clone, PartialEq, Eq)]
pub struct Field {
    pub name: String,
    pub data_type: ColumnType,
    pub nullable: bool,
}

/// What a [`Field`] is, mathematically.
pub struct FieldView {
    pub name: Seq<char>,
    pub data_type: ColumnType,
    pub nullable: bool,
}

impl View for Field {
    type V = FieldView;

    open spec fn view(&self) -> FieldView {
        FieldView { name: self.name@, data_type: self.data_type, nullable: self.nullable }
    }
}

/// An ordered list of columns. The order is part of the layout.
#[derive(Debug, Clone, PartialEq, Eq)]
pub struct Schema {
    pub fields: Vec<Field>,
}

impl View for Schema {
    type V = Seq<FieldView>;

    open spec fn view(&self) -> Seq<FieldView> {
        Seq::new(self.fields@.len(), |i: int| self.fields@[i]@)
    }
}

/// The one layout of every snapshot: `id`, `name`, `x`, `y`, `tasks`, in this
/// order. Only `tasks` may hold an absent value.
pub open spec fn standard_schema() -> Seq<FieldView> {
    seq![
        FieldView { name: "id"@, data_type: ColumnType::LargeUtf8, nullable: false },
        FieldView { name: "name"@, data_type: ColumnType::Utf8, nullable: false },
        FieldView { name: "x"@, data_type: ColumnType::Float64, nullable: false },
        FieldView { name: "y"@, data_type: ColumnType::Float64, nullable: false },
        FieldView { name: "tasks"@, data_type: ColumnType::Utf8, nullable: true },
    ]
}

impl Entity {
    /// The layout of every batch that the encoder produces.
    pub fn arrow_schema() -> (schema: Schema)
        ensures
            schema@ == standard_schema(),
    {
        let mut fields: Vec<Field> = Vec::new();
        fields.push(Field { name: String::from_str("id"), data_type: ColumnType::LargeUtf8, nullable: false });
        fields.push(Field { name: String::from_str("name"), data_type: ColumnType::Utf8, nullable: false });
        fields.push(Field { name: String::from_str("x"), data_type: ColumnType::Float64, nullable: false });
        fields.push(Field { name: String::from_str("y"), data_type: ColumnType::Float64, nullable: false });
        fields.push(Field { name: String::from_str("tasks"), data_type: ColumnType::Utf8, nullable: true });
        let schema = Schema { fields };
        assert(schema@ =~= standard_schema());
        schema
    }
}

} // verus!
