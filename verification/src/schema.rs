use vstd::prelude::*;

use crate::postgres_client::PostgresType;

verus! {

/// Scalar types native to the host language, used when a backend stores a
/// whole object as one blob and the schema only documents its fields.
#[derive(Debug, Clone, PartialEq, Eq)]
pub enum RustStandardType {
    String,
    Int8,
    Int16,
    Int32,
    Int64,
    Int128,
    UInt8,
    UInt16,
    UInt32,
    UInt64,
    UInt128,
    ISize,
    USize,
    Float32,
    Float64,
    Char,
    Bool,
    DateTime,
}

/// `ordermap::OrderMap` keeps its entries in insertion order; a schema uses
/// it so that the declared column order is the DDL column order. The type is
/// declared here so that it can stand in fields; its contents are reached
/// through [`pg_columns_of`] and the accessor that applies it.
#[verifier::external_type_specification]
#[verifier::external_body]
#[verifier::reject_recursive_types(K)]
#[verifier::reject_recursive_types(V)]
#[verifier::reject_recursive_types(S)]
pub struct ExOrderMap<K, V, S>(ordermap::OrderMap<K, V, S>);

/// The column list that a SQL schema map holds: its (name, type) entries in
/// their insertion order.
pub uninterp spec fn pg_columns_of(
    m: ordermap::OrderMap<String, PostgresType>,
) -> Seq<(Seq<char>, PostgresType)>;

/// Relies on `ordermap::OrderMap::iter`, which yields the key-value pairs of
/// the map in their insertion order; the body only copies them out.
#[verifier::external_body]
pub(crate) fn pg_columns(
    m: &ordermap::OrderMap<String, PostgresType>,
) -> (r: Vec<(String, PostgresType)>)
    ensures
        r@.len() == pg_columns_of(*m).len(),
        forall|i: int|
            0 <= i < r@.len() ==> r@[i].0@ == pg_columns_of(*m)[i].0 && r@[i].1
                == pg_columns_of(*m)[i].1,
{
    m.iter().map(|(k, v)| (k.clone(), v.clone())).collect()
}

/// The first position at which `name` stands in `cols`, or `-1` when it
/// does not.
pub open spec fn spec_find_column(cols: Seq<(Seq<char>, PostgresType)>, name: Seq<char>) -> int
    decreases cols.len(),
{
    if cols.len() == 0 {
        -1
    } else if cols[0].0 == name {
        0
    } else {
        let rest = spec_find_column(cols.drop_first(), name);
        if rest == -1 {
            -1
        } else {
            rest + 1
        }
    }
}

/// What one insertion does to a column list: a new name is appended last in
/// order; an existing name keeps its place and only its type is updated.
pub open spec fn spec_insert_column(
    cols: Seq<(Seq<char>, PostgresType)>,
    name: Seq<char>,
    t: PostgresType,
) -> Seq<(Seq<char>, PostgresType)> {
    let i = spec_find_column(cols, name);
    if i == -1 {
        cols.push((name, t))
    } else {
        cols.update(i, (name, t))
    }
}

/// A name absent from every entry of a column list is not found.
proof fn lemma_find_column_absent(cols: Seq<(Seq<char>, PostgresType)>, name: Seq<char>)
    requires
        forall|k: int| 0 <= k < cols.len() ==> cols[k].0 != name,
    ensures
        spec_find_column(cols, name) == -1,
    decreases cols.len(),
{
    if cols.len() > 0 {
        assert(forall|k: int|
            0 <= k < cols.drop_first().len() ==> cols.drop_first()[k] == cols[k + 1]);
        lemma_find_column_absent(cols.drop_first(), name);
    }
}

/// Relies on `ordermap::OrderMap::new`: creates an empty map.
#[verifier::external_body]
pub(crate) fn pg_schema_new() -> (r: ordermap::OrderMap<String, PostgresType>)
    ensures
        pg_columns_of(r) == Seq::<(Seq<char>, PostgresType)>::empty(),
{
    ordermap::OrderMap::new()
}

/// Relies on `ordermap::OrderMap::insert`: a new key is appended last in
/// order; an existing key keeps its place in the order and only its value
/// is updated (the older value, which `insert` hands back, is dropped).
#[verifier::external_body]
pub(crate) fn pg_schema_insert(
    m: &mut ordermap::OrderMap<String, PostgresType>,
    name: String,
    t: PostgresType,
)
    ensures
        pg_columns_of(*final(m)) == spec_insert_column(pg_columns_of(*old(m)), name@, t),
{
    m.insert(name, t);
}

/// The column layout of one object type: an ordered column-name-to-type
/// mapping plus the name of the primary-key column. The mapping's insertion
/// order is significant: it fixes the DDL column order. Callers are expected
/// to name a `primary_key` that is present in the mapping; the layer does not
/// check it, it reproduces the layout as given.
pub enum StorageSchema {
    /// Columns described with language-native scalar types.
    Standard { schema: ordermap::OrderMap<String, RustStandardType>, primary_key: String },
    /// Columns described with SQL scalar types, ready for DDL generation.
    Postgres { schema: ordermap::OrderMap<String, PostgresType>, primary_key: String },
}

/// The mathematical shape of a [`StorageSchema`]. Only the SQL variant's
/// columns are ever read by this layer (for DDL generation), so only they
/// appear here; the standard variant is carried opaquely.
pub enum SchemaModel {
    Standard { primary_key: Seq<char> },
    Postgres { columns: Seq<(Seq<char>, PostgresType)>, primary_key: Seq<char> },
}

impl StorageSchema {
    /// Builds the SQL-variant schema from a column list, kept in the given
    /// order. Column names must be distinct, as in any mapping; the result
    /// holds exactly the given columns, ready for DDL generation.
    pub fn postgres_from_columns(
        columns: Vec<(String, PostgresType)>,
        primary_key: String,
    ) -> (r: StorageSchema)
        requires
            forall|i: int, j: int|
                0 <= i < j < columns@.len() ==> columns@[i].0@ != columns@[j].0@,
        ensures
            r@ matches SchemaModel::Postgres { columns: c, primary_key: p } && p == primary_key@
                && c.len() == columns@.len() && (forall|i: int|
                0 <= i < c.len() ==> c[i].0 == columns@[i].0@ && c[i].1 == columns@[i].1),
    {
        let mut map = pg_schema_new();
        let mut i: usize = 0;
        while i < columns.len()
            invariant
                forall|a: int, b: int|
                    0 <= a < b < columns@.len() ==> columns@[a].0@ != columns@[b].0@,
                i <= columns.len(),
                pg_columns_of(map).len() == i,
                forall|j: int|
                    0 <= j < i ==> pg_columns_of(map)[j].0 == columns@[j].0@ && pg_columns_of(
                        map,
                    )[j].1 == columns@[j].1,
            decreases columns.len() - i,
        {
            let name = columns[i].0.clone();
            let t = columns[i].1;
            proof {
                assert forall|k: int|
                    0 <= k < pg_columns_of(map).len() implies pg_columns_of(map)[k].0
                    != name@ by {
                    assert(pg_columns_of(map)[k].0 == columns@[k].0@);
                    assert(columns@[k].0@ != columns@[i as int].0@);
                }
                lemma_find_column_absent(pg_columns_of(map), name@);
            }
            pg_schema_insert(&mut map, name, t);
            i = i + 1;
        }
        StorageSchema::Postgres { schema: map, primary_key }
    }
}

impl View for StorageSchema {
    type V = SchemaModel;

    open spec fn view(&self) -> SchemaModel {
        match self {
            StorageSchema::Standard { schema: _, primary_key } => SchemaModel::Standard {
                primary_key: primary_key@,
            },
            StorageSchema::Postgres { schema, primary_key } => SchemaModel::Postgres {
                columns: pg_columns_of(*schema),
                primary_key: primary_key@,
            },
        }
    }
}

} // verus!
