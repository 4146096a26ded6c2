use core::marker::PhantomData;

use vstd::prelude::*;
use vstd::string::StringExecFns;

use crate::decimal::{push_i32_decimal, push_u32_decimal, spec_int_decimal, spec_nat_decimal};
use crate::errors::StorageError;
use crate::format::StorageFormat;
use crate::object::StorageObject;
use crate::schema::{pg_columns, SchemaModel, StorageSchema};

verus! {

/// SQL scalar types, the vocabulary of the relational backend's schemas.
#[derive(Debug, Clone, Copy, PartialEq, Eq)]
pub enum PostgresType {
    /// 2 bytes
    SmallInt,
    /// 4 bytes
    Integer,
    /// 8 bytes
    BigInt,
    Decimal,
    Numeric { precision: Option<u8>, scale: Option<i8> },
    /// 4 bytes, 6 decimal digits of precision
    Real,
    /// 8 bytes, 15 decimal digits of precision
    DoublePrecision,
    /// 1 byte
    SmallSerial,
    /// 4 bytes
    Serial,
    /// 8 bytes
    BigSerial,
    /// variable length with limit
    VARCHAR { n: u32 },
    /// fixed length, blank-padded
    CHAR { n: u32 },
    BPCHAR { n: Option<u32> },
    TEXT,
    /// variable length binary string
    BYTEA,
    TIMESTAMP { with_time_zone: bool },
    DATE,
    TIME { with_time_zone: bool },
    BOOLEAN,
}

/// The SQL spelling of one scalar type, exactly as it stands in generated
/// DDL.
pub open spec fn spec_render_type(t: PostgresType) -> Seq<char> {
    match t {
        PostgresType::SmallInt => "SMALLINT"@,
        PostgresType::Integer => "INTEGER"@,
        PostgresType::BigInt => "BIGINT"@,
        PostgresType::Decimal => "DECIMAL"@,
        PostgresType::Numeric { precision, scale } => {
            if precision is Some && scale is Some {
                "NUMERIC("@ + spec_nat_decimal(precision->0 as nat) + ","@ + spec_int_decimal(
                    scale->0 as int,
                ) + ")"@
            } else {
                "NUMERIC"@
            }
        },
        PostgresType::Real => "REAL"@,
        PostgresType::DoublePrecision => "DOUBLE PRECISION"@,
        PostgresType::SmallSerial => "SMALLSERIAL"@,
        PostgresType::Serial => "SERIAL"@,
        PostgresType::BigSerial => "BIGSERIAL"@,
        PostgresType::VARCHAR { n } => "VARCHAR("@ + spec_nat_decimal(n as nat) + ")"@,
        PostgresType::CHAR { n } => "CHAR("@ + spec_nat_decimal(n as nat) + ")"@,
        PostgresType::BPCHAR { n } => {
            if n is Some {
                "BPCHAR("@ + spec_nat_decimal(n->0 as nat) + ")"@
            } else {
                "BPCHAR"@
            }
        },
        PostgresType::TEXT => "TEXT"@,
        PostgresType::BYTEA => "BYTEA"@,
        PostgresType::TIMESTAMP { with_time_zone } => {
            if with_time_zone {
                "TIMESTAMP WITH TIME ZONE"@
            } else {
                "TIMESTAMP WITHOUT TIME ZONE"@
            }
        },
        PostgresType::DATE => "DATE"@,
        PostgresType::TIME { with_time_zone } => {
            if with_time_zone {
                "TIME WITH TIME ZONE"@
            } else {
                "TIME WITHOUT TIME ZONE"@
            }
        },
        PostgresType::BOOLEAN => "BOOLEAN"@,
    }
}

impl PostgresType {
    /// The SQL spelling of this type, used verbatim in generated DDL.
    pub fn render(&self) -> (r: String)
        ensures
            r@ == spec_render_type(*self),
    {
        match self {
            PostgresType::SmallInt => String::from_str("SMALLINT"),
            PostgresType::Integer => String::from_str("INTEGER"),
            PostgresType::BigInt => String::from_str("BIGINT"),
            PostgresType::Decimal => String::from_str("DECIMAL"),
            PostgresType::Numeric { precision, scale } => {
                if let (Some(p), Some(s)) = (precision, scale) {
                    let mut out = String::from_str("NUMERIC(");
                    push_u32_decimal(&mut out, *p as u32);
                    out.append(",");
                    push_i32_decimal(&mut out, *s as i32);
                    out.append(")");
                    proof {
                        assert(out@ =~= spec_render_type(*self));
                    }
                    out
                } else {
                    String::from_str("NUMERIC")
                }
            },
            PostgresType::Real => String::from_str("REAL"),
            PostgresType::DoublePrecision => String::from_str("DOUBLE PRECISION"),
            PostgresType::SmallSerial => String::from_str("SMALLSERIAL"),
            PostgresType::Serial => String::from_str("SERIAL"),
            PostgresType::BigSerial => String::from_str("BIGSERIAL"),
            PostgresType::VARCHAR { n } => {
                let mut out = String::from_str("VARCHAR(");
                push_u32_decimal(&mut out, *n);
                out.append(")");
                proof {
                    assert(out@ =~= spec_render_type(*self));
                }
                out
            },
            PostgresType::CHAR { n } => {
                let mut out = String::from_str("CHAR(");
                push_u32_decimal(&mut out, *n);
                out.append(")");
                proof {
                    assert(out@ =~= spec_render_type(*self));
                }
                out
            },
            PostgresType::BPCHAR { n } => {
                if let Some(n) = n {
                    let mut out = String::from_str("BPCHAR(");
                    push_u32_decimal(&mut out, *n);
                    out.append(")");
                    proof {
                        assert(out@ =~= spec_render_type(*self));
                    }
                    out
                } else {
                    String::from_str("BPCHAR")
                }
            },
            PostgresType::TEXT => String::from_str("TEXT"),
            PostgresType::BYTEA => String::from_str("BYTEA"),
            PostgresType::TIMESTAMP { with_time_zone } => {
                if *with_time_zone {
                    String::from_str("TIMESTAMP WITH TIME ZONE")
                } else {
                    String::from_str("TIMESTAMP WITHOUT TIME ZONE")
                }
            },
            PostgresType::DATE => String::from_str("DATE"),
            PostgresType::TIME { with_time_zone } => {
                if *with_time_zone {
                    String::from_str("TIME WITH TIME ZONE")
                } else {
                    String::from_str("TIME WITHOUT TIME ZONE")
                }
            },
            PostgresType::BOOLEAN => String::from_str("BOOLEAN"),
        }
    }
}

/// One column of a CREATE TABLE statement: the column name, a space, and
/// the rendered type.
pub open spec fn spec_column_sql(col: (Seq<char>, PostgresType)) -> Seq<char> {
    col.0 + " "@ + spec_render_type(col.1)
}

/// The comma-joined column list of a CREATE TABLE statement, in the order
/// the columns were declared.
pub open spec fn spec_columns_sql(cols: Seq<(Seq<char>, PostgresType)>) -> Seq<char>
    decreases cols.len(),
{
    if cols.len() == 0 {
        Seq::empty()
    } else if cols.len() == 1 {
        spec_column_sql(cols[0])
    } else {
        spec_columns_sql(cols.drop_last()) + ", "@ + spec_column_sql(cols.last())
    }
}

/// The full statement:
/// `CREATE TABLE IF NOT EXISTS <label> (<columns>, PRIMARY KEY (<primary_key>))`.
pub open spec fn spec_create_table_query(
    label: Seq<char>,
    cols: Seq<(Seq<char>, PostgresType)>,
    primary_key: Seq<char>,
) -> Seq<char> {
    "CREATE TABLE IF NOT EXISTS "@ + label + " ("@ + spec_columns_sql(cols)
        + ", PRIMARY KEY ("@ + primary_key + "))"@
}

/// Generates the CREATE TABLE statement for one object type given by its
/// label and schema. Succeeds exactly on the SQL schema variant; a
/// language-native schema is a [`StorageError::SchemaMismatch`].
pub fn create_table_statement(type_label: &str, schema: &StorageSchema) -> (r: Result<
    String,
    StorageError,
>)
    ensures
        schema@ matches SchemaModel::Postgres { columns, primary_key } ==> (r matches Ok(q)
            && q@ == spec_create_table_query(type_label@, columns, primary_key)),
        schema@ matches SchemaModel::Standard { .. } ==> (r matches Err(e)
            && e matches StorageError::SchemaMismatch { type_label: l } && l@ == type_label@),
{
    match schema {
        StorageSchema::Postgres { schema: map, primary_key } => {
            let ghost columns = crate::schema::pg_columns_of(*map);
            let cols = pg_columns(map);
            let mut q = String::from_str("CREATE TABLE IF NOT EXISTS ");
            q.append(type_label);
            q.append(" (");
            let ghost prefix = q@;
            let mut i: usize = 0;
            while i < cols.len()
                invariant
                    cols@.len() == columns.len(),
                    forall|j: int|
                        0 <= j < cols@.len() ==> cols@[j].0@ == columns[j].0 && cols@[j].1
                            == columns[j].1,
                    i <= cols.len(),
                    q@ == prefix + spec_columns_sql(columns.take(i as int)),
                decreases cols.len() - i,
            {
                if i > 0 {
                    q.append(", ");
                }
                let col = &cols[i];
                q.append(col.0.as_str());
                q.append(" ");
                let rendered = col.1.render();
                q.append(rendered.as_str());
                proof {
                    let taken = columns.take(i + 1 as int);
                    assert(taken.last() == columns[i as int]);
                    assert(taken.drop_last() =~= columns.take(i as int));
                    if i == 0 {
                        assert(taken[0] == columns[0]);
                        assert(q@ =~= prefix + spec_columns_sql(taken));
                    } else {
                        assert(q@ =~= prefix + spec_columns_sql(taken));
                    }
                }
                i = i + 1;
            }
            proof {
                assert(columns.take(cols@.len() as int) =~= columns);
            }
            q.append(", PRIMARY KEY (");
            q.append(primary_key.as_str());
            q.append("))");
            proof {
                assert(q@ =~= spec_create_table_query(type_label@, columns, primary_key@));
            }
            Ok(q)
        },
        StorageSchema::Standard { schema: _, primary_key: _ } => {
            Err(StorageError::SchemaMismatch { type_label: type_label.to_owned() })
        },
    }
}

/// The relational backend. Its construction only records the connection
/// address and leaves the pool to be prepared lazily by the database client;
/// its functional core is DDL generation. Live row-level CRUD is a declared
/// extension surface, not yet realized.
pub struct PostgresStorageClient<F: StorageFormat> {
    resource: String,
    format_marker: PhantomData<F>,
}

impl<F: StorageFormat> PostgresStorageClient<F> {
    /// The resource (database) component of the connection address this
    /// backend was constructed for.
    pub closed spec fn spec_resource(&self) -> Seq<char> {
        self.resource@
    }

    /// Constructs the backend from the resource (database) component of a
    /// connection-string address. An empty resource is rejected as a
    /// configuration error before any connection is attempted; nothing else
    /// is validated here.
    pub fn init(resource: String) -> (r: Result<Self, StorageError>)
        ensures
            resource@.len() == 0 ==> (r matches Err(e) && e is ConfigurationError),
            resource@.len() > 0 ==> (r matches Ok(c) && c.spec_resource() == resource@),
    {
        if resource.as_str().is_empty() {
            Err(
                StorageError::ConfigurationError {
                    message: String::from_str("storage address does not have a valid resource"),
                },
            )
        } else {
            Ok(PostgresStorageClient { resource, format_marker: PhantomData })
        }
    }

    /// Generates
    /// `CREATE TABLE IF NOT EXISTS <label> (<name> <TYPE>, ..., PRIMARY KEY (<key>))`
    /// for the object type `O`, with the columns in the schema's declared
    /// order. Succeeds exactly when `O`'s schema is the SQL variant.
    pub fn create_table_if_not_exists_query<O: StorageObject>() -> (r: Result<
        String,
        StorageError,
    >)
        ensures
            O::spec_schema() matches SchemaModel::Postgres { columns, primary_key } ==> (r
                matches Ok(q) && q@ == spec_create_table_query(
                O::spec_type_label(),
                columns,
                primary_key,
            )),
            O::spec_schema() matches SchemaModel::Standard { .. } ==> (r matches Err(e)
                && e matches StorageError::SchemaMismatch { type_label: l } && l@
                == O::spec_type_label()),
    {
        let label = O::type_label();
        let schema = O::schema();
        create_table_statement(label.as_str(), &schema)
    }
}

} // verus!
