//! The relational schema that the calculator produces: tables, columns,
//! indexes and foreign keys.

use vstd::prelude::*;

verus! {

/// The families of column types.
#[derive(Clone, Copy, Debug, PartialEq, Eq, Structural)]
pub enum ColumnTypeFamily {
    Int,
    Float,
    Boolean,
    String,
    DateTime,
}

/// The type of a column, known by its family.
#[derive(Clone, Copy, Debug, PartialEq, Eq, Structural)]
pub struct ColumnType {
    pub family: ColumnTypeFamily,
}

impl ColumnType {
    /// The type of the given family.
    pub fn pure(family: ColumnTypeFamily) -> (r: ColumnType)
        ensures
            r.family == family,
    {
        ColumnType { family }
    }
}

/// How many values a column holds.
#[derive(Clone, Copy, Debug, PartialEq, Eq, Structural)]
pub enum ColumnArity {
    Required,
    Nullable,
    List,
}

/// A column of a table.
#[derive(Clone, Debug, PartialEq)]
pub struct Column {
    pub name: String,
    pub tpe: ColumnType,
    pub arity: ColumnArity,
    /// The default as a literal.
    pub default: Option<String>,
    pub auto_increment: bool,
}

/// A column with its texts as sequences of characters.
pub struct ColumnView {
    pub name: Seq<char>,
    pub tpe: ColumnType,
    pub arity: ColumnArity,
    pub default: Option<Seq<char>>,
    pub auto_increment: bool,
}

impl DeepView for Column {
    type V = ColumnView;

    open spec fn deep_view(&self) -> ColumnView {
        ColumnView {
            name: self.name@,
            tpe: self.tpe,
            arity: self.arity,
            default: self.default.deep_view(),
            auto_increment: self.auto_increment,
        }
    }
}

impl Column {
    /// Whether the column must hold a value.
    pub fn is_required(&self) -> (r: bool)
        ensures
            r == (self.arity == ColumnArity::Required),
    {
        match self.arity {
            ColumnArity::Required => true,
            _ => false,
        }
    }
}

/// Whether an index forbids equal entries.
#[derive(Clone, Copy, Debug, PartialEq, Eq, Structural)]
pub enum IndexType {
    Unique,
    Normal,
}

/// An index of a table.
#[derive(Clone, Debug, PartialEq)]
pub struct Index {
    pub name: String,
    pub columns: Vec<String>,
    pub tpe: IndexType,
}

/// An index with its names as texts.
pub struct IndexView {
    pub name: Seq<char>,
    pub columns: Seq<Seq<char>>,
    pub tpe: IndexType,
}

impl DeepView for Index {
    type V = IndexView;

    open spec fn deep_view(&self) -> IndexView {
        IndexView { name: self.name@, columns: self.columns.deep_view(), tpe: self.tpe }
    }
}

/// A sequence of the database.
#[derive(Clone, Debug, PartialEq)]
pub struct Sequence {
    pub name: String,
    pub initial_value: u32,
    pub allocation_size: u32,
}

/// A sequence with its name as text.
pub struct SequenceView {
    pub name: Seq<char>,
    pub initial_value: u32,
    pub allocation_size: u32,
}

impl DeepView for Sequence {
    type V = SequenceView;

    open spec fn deep_view(&self) -> SequenceView {
        SequenceView {
            name: self.name@,
            initial_value: self.initial_value,
            allocation_size: self.allocation_size,
        }
    }
}

/// The primary key of a table.
#[derive(Clone, Debug, PartialEq)]
pub struct PrimaryKey {
    pub columns: Vec<String>,
    pub sequence: Option<Sequence>,
}

/// A primary key with its names as texts.
pub struct PrimaryKeyView {
    pub columns: Seq<Seq<char>>,
    pub sequence: Option<SequenceView>,
}

impl DeepView for PrimaryKey {
    type V = PrimaryKeyView;

    open spec fn deep_view(&self) -> PrimaryKeyView {
        PrimaryKeyView {
            columns: self.columns.deep_view(),
            sequence: self.sequence.deep_view(),
        }
    }
}

/// What happens to the referencing rows when the referenced row is deleted.
#[derive(Clone, Copy, Debug, PartialEq, Eq, Structural)]
pub enum ForeignKeyAction {
    NoAction,
    Restrict,
    Cascade,
    SetNull,
}

/// A foreign key of a table.
#[derive(Clone, Debug, PartialEq)]
pub struct ForeignKey {
    pub constraint_name: Option<String>,
    pub columns: Vec<String>,
    pub referenced_table: String,
    pub referenced_columns: Vec<String>,
    pub on_delete_action: ForeignKeyAction,
}

/// A foreign key with its names as texts.
pub struct ForeignKeyView {
    pub constraint_name: Option<Seq<char>>,
    pub columns: Seq<Seq<char>>,
    pub referenced_table: Seq<char>,
    pub referenced_columns: Seq<Seq<char>>,
    pub on_delete_action: ForeignKeyAction,
}

impl DeepView for ForeignKey {
    type V = ForeignKeyView;

    open spec fn deep_view(&self) -> ForeignKeyView {
        ForeignKeyView {
            constraint_name: self.constraint_name.deep_view(),
            columns: self.columns.deep_view(),
            referenced_table: self.referenced_table@,
            referenced_columns: self.referenced_columns.deep_view(),
            on_delete_action: self.on_delete_action,
        }
    }
}

/// A table of the schema.
#[derive(Clone, Debug, PartialEq)]
pub struct Table {
    pub name: String,
    pub columns: Vec<Column>,
    pub indices: Vec<Index>,
    pub primary_key: Option<PrimaryKey>,
    pub foreign_keys: Vec<ForeignKey>,
}

/// A table with its names as texts.
pub struct TableView {
    pub name: Seq<char>,
    pub columns: Seq<ColumnView>,
    pub indices: Seq<IndexView>,
    pub primary_key: Option<PrimaryKeyView>,
    pub foreign_keys: Seq<ForeignKeyView>,
}

impl DeepView for Table {
    type V = TableView;

    open spec fn deep_view(&self) -> TableView {
        TableView {
            name: self.name@,
            columns: self.columns.deep_view(),
            indices: self.indices.deep_view(),
            primary_key: self.primary_key.deep_view(),
            foreign_keys: self.foreign_keys.deep_view(),
        }
    }
}

/// An enum of the database.
#[derive(Clone, Debug, PartialEq)]
pub struct Enum {
    pub name: String,
    pub values: Vec<String>,
}

/// An enum with its names as texts.
pub struct EnumView {
    pub name: Seq<char>,
    pub values: Seq<Seq<char>>,
}

impl DeepView for Enum {
    type V = EnumView;

    open spec fn deep_view(&self) -> EnumView {
        EnumView { name: self.name@, values: self.values.deep_view() }
    }
}

/// A relational schema.
#[derive(Clone, Debug, PartialEq)]
pub struct SqlSchema {
    pub tables: Vec<Table>,
    pub enums: Vec<Enum>,
    pub sequences: Vec<Sequence>,
}

/// A schema with its names as texts.
pub struct SqlSchemaView {
    pub tables: Seq<TableView>,
    pub enums: Seq<EnumView>,
    pub sequences: Seq<SequenceView>,
}

impl DeepView for SqlSchema {
    type V = SqlSchemaView;

    open spec fn deep_view(&self) -> SqlSchemaView {
        SqlSchemaView {
            tables: self.tables.deep_view(),
            enums: self.enums.deep_view(),
            sequences: self.sequences.deep_view(),
        }
    }
}

} // verus!
