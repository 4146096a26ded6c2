use vstd::prelude::*;

verus! {

/// Errors reported by the storage layer. Absence of a key is never an
/// error: lookups report it as `None` and deletions as `false`.
#[derive(Debug, Clone, PartialEq, Eq)]
pub enum StorageError {
    /// The store address was empty or unusable; raised at construction,
    /// before any I/O is attempted.
    ConfigurationError { message: String },
    /// An access to the underlying store failed; carries the failing path.
    IOFailure { path: String },
    /// Stored bytes could not be decoded, or a value could not be encoded.
    SerializationFailure { message: String },
    /// The object's schema variant does not match the backend; carries the
    /// label of the object type whose schema was rejected.
    SchemaMismatch { type_label: String },
}

} // verus!
