use vstd::prelude::*;
use vstd::string::StringExecFns;

use crate::errors::StorageError;
use crate::object::StorageObject;

verus! {

/// The address of one object type's partition under a store root: the
/// backend concatenates the root and the object-type label with `/`.
pub open spec fn spec_partition_path(dir: Seq<char>, label: Seq<char>) -> Seq<char> {
    dir + "/"@ + label
}

/// The full address of one entry under a store root: the entry's key under
/// its object type's partition.
pub open spec fn spec_object_path(dir: Seq<char>, label: Seq<char>, key: Seq<char>) -> Seq<char> {
    spec_partition_path(dir, label) + "/"@ + key
}

/// Holds of labels and keys that contain no path separator. Keys are not
/// sanitized by this layer (a key containing `/` can escape its partition),
/// so address-level isolation is stated only for separator-free names.
pub open spec fn spec_has_no_slash(s: Seq<char>) -> bool {
    forall|i: int| 0 <= i < s.len() ==> s[i] != '/'
}

/// The capability performing addressed CRUD and partition lifecycle against
/// one backend. This layer verifies the addressing rules and construction
/// validation; the I/O calls themselves live with the embedding application,
/// which realizes them over these addresses.
pub trait StorageClient: Sized {
    /// The configured root of the store.
    spec fn spec_directory(&self) -> Seq<char>;

    /// Constructs a client from a store address. An address with an empty
    /// path is rejected as a configuration error before any I/O; a
    /// non-empty one is recorded as the store root.
    fn init(address: String) -> (r: Result<Self, StorageError>)
        ensures
            address@.len() == 0 ==> (r matches Err(e) && e is ConfigurationError),
            address@.len() > 0 ==> (r matches Ok(c) && c.spec_directory() == address@),
    ;

    /// The configured root of the store.
    fn directory(&self) -> (r: &str)
        ensures
            r@ == self.spec_directory(),
    ;

    /// The name of the partition holding all instances of `O`: the object
    /// type's label.
    fn object_directory<O: StorageObject>(&self) -> (r: String)
        ensures
            r@ == O::spec_type_label(),
    {
        O::type_label()
    }

    /// The address of the partition holding all instances of `O`:
    /// `<root>/<label>`. Pure address arithmetic, no I/O.
    fn object_directory_path<O: StorageObject>(&self) -> (r: String)
        ensures
            r@ == spec_partition_path(self.spec_directory(), O::spec_type_label()),
    {
        let sub_directory = self.object_directory::<O>();
        let mut full_path = self.directory().to_owned();
        full_path.append("/");
        full_path.append(sub_directory.as_str());
        proof {
            assert(full_path@ =~= spec_partition_path(
                self.spec_directory(),
                O::spec_type_label(),
            ));
        }
        full_path
    }

    /// The full address of the entry for `key` under `O`'s partition:
    /// `<root>/<label>/<key>`. Pure address arithmetic, no I/O.
    fn object_path<O: StorageObject>(&self, key: &str) -> (r: String)
        ensures
            r@ == spec_object_path(self.spec_directory(), O::spec_type_label(), key@),
    {
        let sub_directory = self.object_directory::<O>();
        let mut file_path = self.directory().to_owned();
        file_path.append("/");
        file_path.append(sub_directory.as_str());
        file_path.append("/");
        file_path.append(key);
        proof {
            assert(file_path@ =~= spec_object_path(
                self.spec_directory(),
                O::spec_type_label(),
                key@,
            ));
        }
        file_path
    }
}

/// Partition isolation at the address level: under one root, entries of two
/// different object types never share an address, whatever their keys. In
/// particular the same key string under two labels addresses two distinct
/// entries. Stated for separator-free labels and keys; a key containing `/`
/// can escape its partition, which this layer does not prevent.
pub proof fn lemma_object_paths_partition_isolated(
    dir: Seq<char>,
    label1: Seq<char>,
    label2: Seq<char>,
    key1: Seq<char>,
    key2: Seq<char>,
)
    requires
        label1 != label2,
        spec_has_no_slash(label1),
        spec_has_no_slash(label2),
        spec_has_no_slash(key1),
        spec_has_no_slash(key2),
    ensures
        spec_object_path(dir, label1, key1) != spec_object_path(dir, label2, key2),
{
    let p1 = spec_object_path(dir, label1, key1);
    let p2 = spec_object_path(dir, label2, key2);
    if p1 == p2 {
        let a = dir + "/"@;
        let t1 = label1 + "/"@ + key1;
        let t2 = label2 + "/"@ + key2;
        assert(p1 =~= a + t1);
        assert(p2 =~= a + t2);
        assert((a + t1).len() == (a + t2).len());
        assert forall|i: int| 0 <= i < t1.len() implies t1[i] == t2[i] by {
            assert((a + t1)[a.len() + i] == t1[i]);
            assert((a + t2)[a.len() + i] == t2[i]);
        }
        assert(t1 =~= t2);
        let l1 = label1.len() as int;
        let l2 = label2.len() as int;
        reveal_strlit("/");
        assert(t1[l1] == '/');
        assert(t2[l2] == '/');
        if l1 == l2 {
            assert forall|i: int| 0 <= i < l1 implies label1[i] == label2[i] by {
                assert(t1[i] == label1[i]);
                assert(t2[i] == label2[i]);
            }
            assert(label1 =~= label2);
        } else if l1 < l2 {
            assert(t2[l1] == label2[l1]);
            assert(label2[l1] != '/');
        } else {
            assert(t1[l2] == label1[l2]);
            assert(label1[l2] != '/');
        }
    }
}

} // verus!
