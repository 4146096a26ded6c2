use vstd::prelude::*;

verus! {

/// The abstract state of one backend instance: the partitions that exist,
/// by object-type label, each holding the stored payload bytes by key.
/// Within one backend instance, a (label, key) pair identifies at most one
/// stored value — the filesystem backend realizes a partition as a
/// directory and an entry as a file, the relational backend would realize
/// them as a table and a row.
///
/// Each transition below describes the effect of one client operation when
/// it succeeds; a failing I/O call leaves the store as it was and is
/// reported to the caller as an error.
pub struct StoreModel {
    /// The partitions that exist, by object-type label.
    pub partitions: Map<Seq<char>, Map<Seq<char>, Seq<u8>>>,
}

impl StoreModel {
    /// The entries of the partition under `label`; none if the partition
    /// does not exist.
    pub open spec fn partition(self, label: Seq<char>) -> Map<Seq<char>, Seq<u8>> {
        if self.partitions.dom().contains(label) {
            self.partitions[label]
        } else {
            Map::empty()
        }
    }

    /// The stored payload under (`label`, `key`), if any. Absence is not an
    /// error: a lookup of an absent key returns `None`.
    pub open spec fn get(self, label: Seq<char>, key: Seq<char>) -> Option<Seq<u8>> {
        if self.partition(label).dom().contains(key) {
            Some(self.partition(label)[key])
        } else {
            None
        }
    }

    /// Whether (`label`, `key`) holds a value.
    pub open spec fn contains(self, label: Seq<char>, key: Seq<char>) -> bool {
        self.get(label, key) is Some
    }

    /// Ensures the partition under `label` exists; idempotent, existing
    /// entries are kept.
    pub open spec fn create_partition(self, label: Seq<char>) -> StoreModel {
        StoreModel { partitions: self.partitions.insert(label, self.partition(label)) }
    }

    /// Stores `value` under (`label`, `key`), overwriting unconditionally:
    /// no compare-and-swap, the last write wins.
    pub open spec fn put(self, label: Seq<char>, key: Seq<char>, value: Seq<u8>) -> StoreModel {
        StoreModel { partitions: self.partitions.insert(label, self.partition(label).insert(key, value)) }
    }

    /// Removes the entry under (`label`, `key`). The boolean reports
    /// whether an entry was removed; an absent key reports `false` and is
    /// not an error.
    pub open spec fn delete(self, label: Seq<char>, key: Seq<char>) -> (StoreModel, bool) {
        if self.contains(label, key) {
            (
                StoreModel {
                    partitions: self.partitions.insert(label, self.partitions[label].remove(key)),
                },
                true,
            )
        } else {
            (self, false)
        }
    }

    /// Removes the whole partition under `label`, entries included, with
    /// the same absent-is-`false` idempotence as [`Self::delete`].
    pub open spec fn drop_partition(self, label: Seq<char>) -> (StoreModel, bool) {
        if self.partitions.dom().contains(label) {
            (StoreModel { partitions: self.partitions.remove(label) }, true)
        } else {
            (self, false)
        }
    }

    /// Removes the entire store.
    pub open spec fn clear(self) -> StoreModel {
        StoreModel { partitions: Map::empty() }
    }
}

/// Idempotent delete: deleting an absent key reports `false` and leaves the
/// store unchanged; deleting a present key reports `true`, and a subsequent
/// lookup of that key finds nothing.
pub proof fn lemma_delete_idempotent(s: StoreModel, label: Seq<char>, key: Seq<char>)
    ensures
        !s.contains(label, key) ==> s.delete(label, key) == (s, false),
        s.contains(label, key) ==> s.delete(label, key).1,
        s.delete(label, key).0.get(label, key) is None,
{
}

/// Overwrite: after two stores to the same key, a lookup returns the second
/// value.
pub proof fn lemma_put_overwrites(
    s: StoreModel,
    label: Seq<char>,
    key: Seq<char>,
    v1: Seq<u8>,
    v2: Seq<u8>,
)
    ensures
        s.put(label, key, v1).put(label, key, v2).get(label, key) == Some(v2),
{
}

/// Partition isolation: the same key string under two different object-type
/// labels addresses two distinct entries, and operations under one label —
/// storing, deleting, even removing the whole partition — leave every entry
/// under the other label exactly as it was.
pub proof fn lemma_partition_isolation(
    s: StoreModel,
    label1: Seq<char>,
    label2: Seq<char>,
    key1: Seq<char>,
    key2: Seq<char>,
    v: Seq<u8>,
)
    requires
        label1 != label2,
    ensures
        s.put(label1, key1, v).get(label2, key2) == s.get(label2, key2),
        s.delete(label1, key1).0.get(label2, key2) == s.get(label2, key2),
        s.drop_partition(label1).0.get(label2, key2) == s.get(label2, key2),
        s.create_partition(label1).get(label2, key2) == s.get(label2, key2),
{
}

} // verus!
