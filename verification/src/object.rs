use vstd::prelude::*;
use vstd::pervasive::arbitrary;

use crate::schema::{SchemaModel, StorageSchema};

verus! {

/// A persistable domain value. Implementors declare a stable label for the
/// object type — it names the type's partition (directory or table) and must
/// not change over the application's lifetime — and a column layout for
/// relational use.
pub trait StorageObject {
    /// The label of this object type, as a mathematical value. Verified
    /// implementors define it; left undefined, the exec methods below
    /// promise nothing useful.
    open spec fn spec_type_label() -> Seq<char> {
        arbitrary()
    }

    /// The column layout of this object type, as a mathematical value.
    open spec fn spec_schema() -> SchemaModel {
        arbitrary()
    }

    /// The stable label of this object type, unique per logical category;
    /// used as the partition (directory or table) name.
    fn type_label() -> (r: String)
        ensures
            r@ == Self::spec_type_label(),
    ;

    /// The column layout of this object type.
    fn schema() -> (r: StorageSchema)
        ensures
            r@ == Self::spec_schema(),
    ;
}

} // verus!
