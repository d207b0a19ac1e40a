//! Result tables as `jobs.query` sends them: the column schema and the raw row
//! tuples.

use vstd::prelude::*;

verus! {

/// Data type of a column.
#[derive(Debug, Clone, Copy, PartialEq, Eq, Structural)]
pub enum TableFieldType {
    String,
    Bytes,
    Integer,
    Float,
    Boolean,
    Timestamp,
    Record,
    Date,
    Time,
    Datetime,
    Numeric,
    Decimal,
    Bignumeric,
    Interval,
    Json,
    Bool,
    Bigdecimal,
    Int64,
    Float64,
    Struct,
}

/// Whether a column may be null, must be set, or holds many values.
#[derive(Debug, Clone, Copy, PartialEq, Eq, Structural)]
pub enum TableFieldMode {
    Nullable,
    Required,
    Repeated,
}

/// One column: its name, type and mode, and the nested columns of a record.
#[derive(Debug)]
pub struct TableFieldSchema {
    pub name: String,
    pub data_type: TableFieldType,
    pub mode: Option<TableFieldMode>,
    pub fields: Option<Vec<TableFieldSchema>>,
}

/// The columns of a result.
#[derive(Debug)]
pub struct TableSchema {
    pub fields: Vec<TableFieldSchema>,
}

/// The raw value of a cell: a scalar in its wire text, the cells of a repeated
/// column, or the tuple of a record.
#[derive(Debug)]
pub enum CellValue {
    Null,
    String(String),
    Array(Vec<Cell>),
    Struct(Tuple),
}

/// One cell.
#[derive(Debug)]
pub struct Cell {
    pub v: CellValue,
}

/// One row, or one record: its cells in column order.
#[derive(Debug)]
pub struct Tuple {
    pub f: Vec<Cell>,
}

/// The type's name in capitals.
pub open spec fn type_word(t: TableFieldType) -> Seq<char> {
    match t {
        TableFieldType::String => "STRING"@,
        TableFieldType::Bytes => "BYTES"@,
        TableFieldType::Integer => "INTEGER"@,
        TableFieldType::Float => "FLOAT"@,
        TableFieldType::Boolean => "BOOLEAN"@,
        TableFieldType::Timestamp => "TIMESTAMP"@,
        TableFieldType::Record => "RECORD"@,
        TableFieldType::Date => "DATE"@,
        TableFieldType::Time => "TIME"@,
        TableFieldType::Datetime => "DATETIME"@,
        TableFieldType::Numeric => "NUMERIC"@,
        TableFieldType::Decimal => "DECIMAL"@,
        TableFieldType::Bignumeric => "BIGNUMERIC"@,
        TableFieldType::Interval => "INTERVAL"@,
        TableFieldType::Json => "JSON"@,
        TableFieldType::Bool => "BOOL"@,
        TableFieldType::Bigdecimal => "BIGDECIMAL"@,
        TableFieldType::Int64 => "INT64"@,
        TableFieldType::Float64 => "FLOAT64"@,
        TableFieldType::Struct => "STRUCT"@,
    }
}

impl TableFieldType {
    /// The type's name in capitals.
    pub fn name(self) -> (r: &'static str)
        ensures
            r@ == type_word(self),
    {
        match self {
            TableFieldType::String => "STRING",
            TableFieldType::Bytes => "BYTES",
            TableFieldType::Integer => "INTEGER",
            TableFieldType::Float => "FLOAT",
            TableFieldType::Boolean => "BOOLEAN",
            TableFieldType::Timestamp => "TIMESTAMP",
            TableFieldType::Record => "RECORD",
            TableFieldType::Date => "DATE",
            TableFieldType::Time => "TIME",
            TableFieldType::Datetime => "DATETIME",
            TableFieldType::Numeric => "NUMERIC",
            TableFieldType::Decimal => "DECIMAL",
            TableFieldType::Bignumeric => "BIGNUMERIC",
            TableFieldType::Interval => "INTERVAL",
            TableFieldType::Json => "JSON",
            TableFieldType::Bool => "BOOL",
            TableFieldType::Bigdecimal => "BIGDECIMAL",
            TableFieldType::Int64 => "INT64",
            TableFieldType::Float64 => "FLOAT64",
            TableFieldType::Struct => "STRUCT",
        }
    }
}

/// The mode's name in capitals; a column without a mode is nullable.
pub open spec fn mode_word(m: Option<TableFieldMode>) -> Seq<char> {
    match m {
        Some(TableFieldMode::Required) => "REQUIRED"@,
        Some(TableFieldMode::Repeated) => "REPEATED"@,
        _ => "NULLABLE"@,
    }
}

} // verus!
