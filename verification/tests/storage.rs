use objstore::{
    encode_decode_round_trip, FileStorageClient, JsonStorageFormat, PostgresStorageClient,
    PostgresType, RustStandardType, StorageClient, StorageError, StorageFormat, StorageObject,
    StorageSchema,
};
use ordermap::OrderMap;

#[allow(dead_code)]
struct TestObject {
    key: i32,
    value: String,
}

impl StorageObject for TestObject {
    fn type_label() -> String {
        "TestObject".to_string()
    }

    fn schema() -> StorageSchema {
        let mut schema = OrderMap::new();
        schema.insert("key".to_string(), PostgresType::Integer);
        schema.insert("value".to_string(), PostgresType::VARCHAR { n: 255 });
        StorageSchema::Postgres {
            schema,
            primary_key: "key".to_string(),
        }
    }
}

#[allow(dead_code)]
struct OtherObject {
    name: String,
}

impl StorageObject for OtherObject {
    fn type_label() -> String {
        "OtherObject".to_string()
    }

    fn schema() -> StorageSchema {
        let mut schema = OrderMap::new();
        schema.insert("name".to_string(), RustStandardType::String);
        StorageSchema::Standard {
            schema,
            primary_key: "name".to_string(),
        }
    }
}

#[test]
fn test_create_table_if_not_exists_query() {
    let query =
        PostgresStorageClient::<JsonStorageFormat>::create_table_if_not_exists_query::<TestObject>();
    assert!(query.is_ok());
    let query = query.unwrap();
    assert_eq!(
        query,
        "CREATE TABLE IF NOT EXISTS TestObject (key INTEGER, value VARCHAR(255), PRIMARY KEY (key))"
    );
}

#[test]
fn test_create_table_query_rejects_standard_schema() {
    let query =
        PostgresStorageClient::<JsonStorageFormat>::create_table_if_not_exists_query::<OtherObject>();
    match query {
        Err(StorageError::SchemaMismatch { type_label }) => {
            assert_eq!(type_label, "OtherObject");
        }
        _ => panic!("expected a schema mismatch"),
    }
}

#[test]
fn test_create_table_statement_single_column() {
    let mut schema = OrderMap::new();
    schema.insert("id".to_string(), PostgresType::BigSerial);
    let schema = StorageSchema::Postgres {
        schema,
        primary_key: "id".to_string(),
    };
    let query = objstore::create_table_statement("Event", &schema).unwrap();
    assert_eq!(
        query,
        "CREATE TABLE IF NOT EXISTS Event (id BIGSERIAL, PRIMARY KEY (id))"
    );
}

#[test]
fn test_create_table_statement_column_order_is_insertion_order() {
    let mut schema = OrderMap::new();
    schema.insert("b".to_string(), PostgresType::TEXT);
    schema.insert("a".to_string(), PostgresType::BOOLEAN);
    schema.insert("c".to_string(), PostgresType::DATE);
    let schema = StorageSchema::Postgres {
        schema,
        primary_key: "b".to_string(),
    };
    let query = objstore::create_table_statement("T", &schema).unwrap();
    assert_eq!(
        query,
        "CREATE TABLE IF NOT EXISTS T (b TEXT, a BOOLEAN, c DATE, PRIMARY KEY (b))"
    );
}

#[test]
fn test_create_table_statement_overwritten_key_keeps_place() {
    let mut schema = OrderMap::new();
    schema.insert("a".to_string(), PostgresType::TEXT);
    schema.insert("b".to_string(), PostgresType::DATE);
    schema.insert("a".to_string(), PostgresType::BOOLEAN);
    let schema = StorageSchema::Postgres {
        schema,
        primary_key: "a".to_string(),
    };
    let query = objstore::create_table_statement("T", &schema).unwrap();
    assert_eq!(
        query,
        "CREATE TABLE IF NOT EXISTS T (a BOOLEAN, b DATE, PRIMARY KEY (a))"
    );
}

#[test]
fn test_postgres_schema_builder_matches_direct_construction() {
    let schema = StorageSchema::postgres_from_columns(
        vec![
            ("key".to_string(), PostgresType::Integer),
            ("value".to_string(), PostgresType::VARCHAR { n: 255 }),
        ],
        "key".to_string(),
    );
    let query = objstore::create_table_statement("TestObject", &schema).unwrap();
    assert_eq!(
        query,
        "CREATE TABLE IF NOT EXISTS TestObject (key INTEGER, value VARCHAR(255), PRIMARY KEY (key))"
    );
}

#[test]
fn test_postgres_type_rendering_plain() {
    assert_eq!(PostgresType::SmallInt.render(), "SMALLINT");
    assert_eq!(PostgresType::Integer.render(), "INTEGER");
    assert_eq!(PostgresType::BigInt.render(), "BIGINT");
    assert_eq!(PostgresType::Decimal.render(), "DECIMAL");
    assert_eq!(PostgresType::Real.render(), "REAL");
    assert_eq!(PostgresType::DoublePrecision.render(), "DOUBLE PRECISION");
    assert_eq!(PostgresType::SmallSerial.render(), "SMALLSERIAL");
    assert_eq!(PostgresType::Serial.render(), "SERIAL");
    assert_eq!(PostgresType::BigSerial.render(), "BIGSERIAL");
    assert_eq!(PostgresType::TEXT.render(), "TEXT");
    assert_eq!(PostgresType::BYTEA.render(), "BYTEA");
    assert_eq!(PostgresType::DATE.render(), "DATE");
    assert_eq!(PostgresType::BOOLEAN.render(), "BOOLEAN");
}

#[test]
fn test_postgres_type_rendering_parameterized() {
    assert_eq!(
        PostgresType::Numeric {
            precision: Some(10),
            scale: Some(2)
        }
        .render(),
        "NUMERIC(10,2)"
    );
    assert_eq!(
        PostgresType::Numeric {
            precision: Some(5),
            scale: Some(-3)
        }
        .render(),
        "NUMERIC(5,-3)"
    );
    assert_eq!(
        PostgresType::Numeric {
            precision: None,
            scale: Some(2)
        }
        .render(),
        "NUMERIC"
    );
    assert_eq!(
        PostgresType::Numeric {
            precision: Some(10),
            scale: None
        }
        .render(),
        "NUMERIC"
    );
    assert_eq!(
        PostgresType::Numeric {
            precision: Some(255),
            scale: Some(-128)
        }
        .render(),
        "NUMERIC(255,-128)"
    );
    assert_eq!(
        PostgresType::Numeric {
            precision: Some(0),
            scale: Some(0)
        }
        .render(),
        "NUMERIC(0,0)"
    );
    assert_eq!(PostgresType::VARCHAR { n: 255 }.render(), "VARCHAR(255)");
    assert_eq!(PostgresType::VARCHAR { n: 0 }.render(), "VARCHAR(0)");
    assert_eq!(PostgresType::CHAR { n: 10 }.render(), "CHAR(10)");
    assert_eq!(PostgresType::BPCHAR { n: Some(7) }.render(), "BPCHAR(7)");
    assert_eq!(PostgresType::BPCHAR { n: None }.render(), "BPCHAR");
    assert_eq!(
        PostgresType::VARCHAR { n: 4294967295 }.render(),
        "VARCHAR(4294967295)"
    );
}

#[test]
fn test_postgres_type_rendering_time_zone() {
    assert_eq!(
        PostgresType::TIMESTAMP {
            with_time_zone: true
        }
        .render(),
        "TIMESTAMP WITH TIME ZONE"
    );
    assert_eq!(
        PostgresType::TIMESTAMP {
            with_time_zone: false
        }
        .render(),
        "TIMESTAMP WITHOUT TIME ZONE"
    );
    assert_eq!(
        PostgresType::TIME {
            with_time_zone: true
        }
        .render(),
        "TIME WITH TIME ZONE"
    );
    assert_eq!(
        PostgresType::TIME {
            with_time_zone: false
        }
        .render(),
        "TIME WITHOUT TIME ZONE"
    );
}

#[test]
fn test_json_round_trip() {
    let fields = vec![
        ("key".to_string(), "test_key".to_string()),
        ("value".to_string(), "test_value".to_string()),
    ];
    let bytes = JsonStorageFormat::serialize(&fields).unwrap();
    let decoded = JsonStorageFormat::deserialize(&bytes).unwrap();
    assert_eq!(decoded, fields);

    let round_tripped = encode_decode_round_trip::<JsonStorageFormat>(&fields);
    assert_eq!(round_tripped, fields);
}

#[test]
fn test_json_round_trip_empty() {
    let fields: Vec<(String, String)> = Vec::new();
    let bytes = JsonStorageFormat::serialize(&fields).unwrap();
    let decoded = JsonStorageFormat::deserialize(&bytes).unwrap();
    assert_eq!(decoded, fields);
}

#[test]
fn test_json_exact_bytes() {
    let fields = vec![("key".to_string(), "test_value".to_string())];
    let bytes = JsonStorageFormat::serialize(&fields).unwrap();
    assert_eq!(bytes.as_slice(), br#"[["key","test_value"]]"#);
}

#[test]
fn test_json_malformed_payload_is_rejected() {
    let malformed = JsonStorageFormat::deserialize(b"not json at all");
    assert!(matches!(
        malformed,
        Err(StorageError::SerializationFailure { .. })
    ));
    let wrong_shape = JsonStorageFormat::deserialize(br#"{"key":1}"#);
    assert!(matches!(
        wrong_shape,
        Err(StorageError::SerializationFailure { .. })
    ));
}

#[test]
fn test_file_client_init_rejects_empty_path() {
    let client = <FileStorageClient<JsonStorageFormat> as StorageClient>::init(String::new());
    assert!(matches!(
        client,
        Err(StorageError::ConfigurationError { .. })
    ));
}

#[test]
fn test_file_client_init_records_directory() {
    let client =
        <FileStorageClient<JsonStorageFormat> as StorageClient>::init("/tmp/store".to_string())
            .unwrap();
    assert_eq!(client.directory(), "/tmp/store");
}

#[test]
fn test_postgres_client_init_rejects_empty_address() {
    let client = PostgresStorageClient::<JsonStorageFormat>::init(String::new());
    assert!(matches!(
        client,
        Err(StorageError::ConfigurationError { .. })
    ));
}

#[test]
fn test_object_path_layout() {
    let client =
        <FileStorageClient<JsonStorageFormat> as StorageClient>::init("/tmp/store".to_string())
            .unwrap();
    assert_eq!(client.object_directory::<TestObject>(), "TestObject");
    assert_eq!(
        client.object_directory_path::<TestObject>(),
        "/tmp/store/TestObject"
    );
    assert_eq!(
        client.object_path::<TestObject>("test_key"),
        "/tmp/store/TestObject/test_key"
    );
}

#[test]
fn test_object_paths_of_two_types_are_distinct() {
    let client =
        <FileStorageClient<JsonStorageFormat> as StorageClient>::init("/tmp/store".to_string())
            .unwrap();
    let same_key_first = client.object_path::<TestObject>("shared_key");
    let same_key_second = client.object_path::<OtherObject>("shared_key");
    assert_ne!(same_key_first, same_key_second);
}
