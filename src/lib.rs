//! Storage of airline safety-incident statistics in an embedded SQL table:
//! creating and dropping the table, loading delimited text into it, and
//! reading stored incidents back.

pub mod decimal;
pub mod incident;
pub mod ingest;
pub mod name;
pub mod row;
pub mod store;

pub use incident::{coerce_record, Incident, RecordError};
pub use ingest::{plan_load, RecordFault};
pub use name::is_valid_table_name;
pub use row::{decode_row, Cell, DecodeError, IncidentRow};
pub use store::{
    create_table, create_table_sql, decode_rows, drop_table, drop_table_sql, insert_sql,
    Database, DecodeFailure, load_data_from_csv, load_records, query_exec, LoadError, QueryError, RowFault, TableError,
};
