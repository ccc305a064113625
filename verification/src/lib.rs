//! Data model for a time-series database client binding: typed values,
//! schemas, query result views over a shared row buffer, write-point
//! builders with deferred validation, and write batches.

mod point;
mod query;
mod schema;
mod value;
mod write;

pub use point::eq_ignore_ascii_case;
pub use point::has_reserved_name;
pub use point::is_reserved_col_name;
pub use point::is_reserved_column_name;
pub use point::lemma_build_error_priority;
pub use point::lemma_valid_state_builds;
pub use point::lower_code;
pub use point::Point;
pub use point::PointBuilder;
pub use point::PointError;
pub use query::Column;
pub use query::ColumnIter;
pub use query::Row;
pub use query::RowBuffer;
pub use query::RowIter;
pub use query::SqlQueryRequest;
pub use query::SqlQueryResponse;
pub use schema::ColumnSchema;
pub use schema::Schema;
pub use value::lemma_data_type_round_trip;
pub use value::DataType;
pub use value::Value;
pub use value::ValueBuilder;
pub use write::WriteRequest;
pub use write::WriteResponse;
