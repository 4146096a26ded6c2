use core::marker::PhantomData;

use vstd::prelude::*;
use vstd::string::StringExecFns;

use crate::client::StorageClient;
use crate::errors::StorageError;
use crate::format::StorageFormat;

verus! {

/// The hierarchical filesystem backend: entries of object type `O` live as
/// one file per key under `<root>/<label of O>/<key>`, holding exactly the
/// bytes of the configured format `F`, with no header or framing.
///
/// This layer owns the addressing (see [`StorageClient`]) and the
/// construction validation; the embedding application performs the file
/// reads, writes and removals at the addresses computed here, and creates
/// the root directory right after construction.
pub struct FileStorageClient<F: StorageFormat> {
    directory: String,
    format_marker: PhantomData<F>,
}

impl<F: StorageFormat> StorageClient for FileStorageClient<F> {
    closed spec fn spec_directory(&self) -> Seq<char> {
        self.directory@
    }

    fn init(address: String) -> (r: Result<Self, StorageError>) {
        if address.as_str().is_empty() {
            Err(
                StorageError::ConfigurationError {
                    message: String::from_str("storage address does not have a valid path"),
                },
            )
        } else {
            Ok(FileStorageClient { directory: address, format_marker: PhantomData })
        }
    }

    fn directory(&self) -> (r: &str) {
        self.directory.as_str()
    }
}

} // verus!
