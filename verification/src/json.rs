use vstd::prelude::*;
use vstd::string::StringExecFns;

use crate::errors::StorageError;
use crate::format::StorageFormat;

verus! {

/// The JSON byte representation that `serde_json` gives to a field list: an
/// array of two-element arrays of strings. It depends on the fields alone.
pub uninterp spec fn json_encoding_of(fields: Seq<(Seq<char>, Seq<char>)>) -> Seq<u8>;

/// Whether `serde_json::from_slice` accepts `data` as a field list. The
/// parser is deterministic, so acceptance depends on the bytes alone.
pub uninterp spec fn json_decodes(data: Seq<u8>) -> bool;

/// Relies on `serde_json::to_vec`: the bytes it produces depend on the value
/// alone, and `serde_json::from_slice` accepts them back. On a vector of
/// string pairs it cannot fail: the writer is an in-memory vector and
/// strings, pairs and vectors serialize without error, so the unwrap never
/// panics.
#[verifier::external_body]
fn to_json_bytes(fields: &Vec<(String, String)>) -> (r: Vec<u8>)
    ensures
        r@ == json_encoding_of(fields.deep_view()),
        json_decodes(r@),
{
    serde_json::to_vec(fields).unwrap()
}

/// Relies on `serde_json::from_slice`: parsing succeeds exactly on the
/// bytes the deterministic parser accepts, and parsing the exact bytes that
/// `serde_json::to_vec` produced for a value yields that value back. Bytes
/// outside the encoder's image may still parse (JSON tolerates whitespace
/// variations); of their parse result nothing is claimed beyond acceptance.
#[verifier::external_body]
fn from_json_bytes(data: &[u8]) -> (r: Option<Vec<(String, String)>>)
    ensures
        match r {
            Some(v) => json_decodes(data@) && (forall|fields: Seq<(Seq<char>, Seq<char>)>|
                data@ == json_encoding_of(fields) ==> v.deep_view() == fields),
            None => !json_decodes(data@) && (forall|fields: Seq<(Seq<char>, Seq<char>)>|
                data@ != json_encoding_of(fields)),
        },
{
    serde_json::from_slice(data).ok()
}

/// A [`StorageFormat`] that persists a field list as one JSON document,
/// delegating the byte-level codec to `serde_json`.
#[derive(Debug, Clone)]
pub struct JsonStorageFormat;

impl StorageFormat for JsonStorageFormat {
    open spec fn spec_encoding(fields: Seq<(Seq<char>, Seq<char>)>) -> Seq<u8> {
        json_encoding_of(fields)
    }

    open spec fn spec_serializable(fields: Seq<(Seq<char>, Seq<char>)>) -> bool {
        true
    }

    open spec fn spec_decodable(data: Seq<u8>) -> bool {
        json_decodes(data)
    }

    fn serialize(fields: &Vec<(String, String)>) -> (r: Result<Vec<u8>, StorageError>) {
        Ok(to_json_bytes(fields))
    }

    fn deserialize(data: &[u8]) -> (r: Result<Vec<(String, String)>, StorageError>) {
        match from_json_bytes(data) {
            Some(fields) => Ok(fields),
            None => Err(
                StorageError::SerializationFailure {
                    message: String::from_str("malformed JSON payload"),
                },
            ),
        }
    }
}

} // verus!
