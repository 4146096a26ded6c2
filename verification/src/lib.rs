//! A generic object-persistence layer: pluggable serialization formats and
//! pluggable backends behind one client contract.
//!
//! Objects are addressed by an object-type label and a key. The filesystem
//! backend stores one file per key under `root/<label>/<key>`; the relational
//! backend realizes each object type as a table and generates the DDL for it.

mod client;
mod decimal;
mod errors;
mod file_client;
mod format;
mod json;
mod object;
mod postgres_client;
mod schema;
mod store_model;

pub use client::{
    lemma_object_paths_partition_isolated, spec_has_no_slash, spec_object_path,
    spec_partition_path, StorageClient,
};
pub use decimal::{spec_digit_char, spec_int_decimal, spec_nat_decimal};
pub use errors::StorageError;
pub use file_client::FileStorageClient;
pub use format::{encode_decode_round_trip, StorageFormat};
pub use json::{json_encoding_of, JsonStorageFormat};
pub use object::StorageObject;
pub use postgres_client::{
    create_table_statement, spec_column_sql, spec_columns_sql, spec_create_table_query,
    spec_render_type, PostgresStorageClient, PostgresType,
};
pub use schema::{
    pg_columns_of, spec_find_column, spec_insert_column, RustStandardType, SchemaModel,
    StorageSchema,
};
pub use store_model::{
    lemma_delete_idempotent, lemma_partition_isolation, lemma_put_overwrites, StoreModel,
};
