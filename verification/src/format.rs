use vstd::prelude::*;
use vstd::pervasive::{arbitrary, unreached};

use crate::errors::StorageError;

verus! {

/// A stateless codec between an object's fields and its persisted byte
/// representation. An object instance crosses this boundary as its ordered
/// field list: pairs of field name and rendered field value.
///
/// The governing law is the round trip: decoding the bytes that encoding
/// produced yields the fields back unchanged (see
/// [`encode_decode_round_trip`]).
pub trait StorageFormat {
    /// The byte representation this format gives to a field list. Verified
    /// implementors define it; left undefined, the methods below promise
    /// nothing useful.
    open spec fn spec_encoding(fields: Seq<(Seq<char>, Seq<char>)>) -> Seq<u8> {
        arbitrary()
    }

    /// The field lists this format can encode at all. Encoding one of them
    /// never fails.
    open spec fn spec_serializable(fields: Seq<(Seq<char>, Seq<char>)>) -> bool {
        arbitrary()
    }

    /// The byte arrays this format accepts at all. Encoder output is always
    /// among them; decoding anything else fails.
    open spec fn spec_decodable(data: Seq<u8>) -> bool {
        arbitrary()
    }

    /// Encodes the field list. The bytes carry the fields with no header,
    /// checksum or framing, and are always accepted back by
    /// [`Self::deserialize`].
    fn serialize(fields: &Vec<(String, String)>) -> (r: Result<Vec<u8>, StorageError>)
        ensures
            Self::spec_serializable(fields.deep_view()) ==> r is Ok,
            r matches Ok(bytes) ==> bytes@ == Self::spec_encoding(fields.deep_view()),
            r matches Ok(bytes) ==> Self::spec_decodable(bytes@),
            r matches Err(e) ==> e is SerializationFailure,
    ;

    /// Decodes a byte representation back into a field list. On the exact
    /// bytes that [`Self::serialize`] produced for some field list, it
    /// returns that field list; malformed bytes — any the format does not
    /// accept — are reported as a `SerializationFailure`, and nothing else
    /// is.
    fn deserialize(data: &[u8]) -> (r: Result<Vec<(String, String)>, StorageError>)
        ensures
            r is Ok <==> Self::spec_decodable(data@),
            forall|fields: Seq<(Seq<char>, Seq<char>)>|
                data@ == Self::spec_encoding(fields) ==> (r matches Ok(v) && v.deep_view()
                    == fields),
            r matches Err(e) ==> e is SerializationFailure,
    ;
}

/// Round trip: for every field list a format can encode, decoding the bytes
/// that encoding produced yields the field list back, field for field.
pub fn encode_decode_round_trip<F: StorageFormat>(fields: &Vec<(String, String)>) -> (r: Vec<
    (String, String),
>)
    requires
        F::spec_serializable(fields.deep_view()),
    ensures
        r.deep_view() == fields.deep_view(),
{
    let bytes = match F::serialize(fields) {
        Ok(bytes) => bytes,
        Err(_) => unreached(),
    };
    assert(bytes@ == F::spec_encoding(fields.deep_view()));
    match F::deserialize(bytes.as_slice()) {
        Ok(decoded) => decoded,
        Err(_) => unreached(),
    }
}

} // verus!
