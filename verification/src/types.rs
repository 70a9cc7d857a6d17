use crate::digest::{digest, digest_spec};
use vstd::prelude::*;

verus! {

/// A raw content entity: arbitrary bytes together with their digest.
/// A blob is owned transiently by its caller and persisted by copy into
/// the object store.
pub struct Blob {
    pub hash: String,
    pub data: Vec<u8>,
}

impl Blob {
    /// A blob is well formed when its digest is the digest of its
    /// content; such a digest always has the fixed digest width.
    pub open spec fn wf(&self) -> bool {
        self.hash@ == digest_spec(self.data@)
    }

    /// Builds a blob from raw content, computing its digest.
    pub fn new(data: Vec<u8>) -> (b: Blob)
        ensures
            b.wf(),
            b.data@ == data@,
    {
        let hash = digest(&data);
        Blob { hash, data }
    }
}

} // verus!
