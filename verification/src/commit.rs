use crate::digest::{digest, digest_spec};
use crate::error::GitCliError;
use vstd::prelude::*;
use vstd::slice::{slice_subrange, slice_to_vec};

verus! {

/// The structural marker that opens every serialized commit.
pub open spec fn marker_seq() -> Seq<u8> {
    seq![99u8, 111u8, 109u8, 109u8, 105u8, 116u8, 10u8]
}

/// The serialized form of commit content: the marker followed by the
/// content bytes.
pub open spec fn serial_spec(data: Seq<u8>) -> Seq<u8> {
    marker_seq() + data
}

/// What parsing stored bytes as a commit yields: the content after the
/// marker when the bytes open with the marker, nothing otherwise.
pub open spec fn parse_spec(raw: Seq<u8>) -> Option<Seq<u8>> {
    if raw.len() >= 7 && raw.take(7) == marker_seq() {
        Some(raw.skip(7))
    } else {
        None
    }
}

/// A versioned snapshot record. A commit is built with content and no
/// digest, then finalized exactly once before persistence: finalizing
/// computes the digest of the serialized content and fixes it in
/// `hash`.
pub struct Commit {
    pub hash: Option<String>,
    pub data: Option<Vec<u8>>,
}

impl Commit {
    /// A commit is finalized when both digest and content are present
    /// and the digest is the digest of the serialized content.
    pub open spec fn finalized(&self) -> bool {
        &&& self.data is Some
        &&& self.hash is Some
        &&& self.hash->0@ == digest_spec(serial_spec(self.data->0@))
    }

    /// Builds a fresh, unfinalized commit holding the given content.
    pub fn new(data: Vec<u8>) -> (c: Commit)
        ensures
            c.hash is None,
            c.data matches Some(d) && d@ == data@,
    {
        Commit { hash: None, data: Some(data) }
    }

    /// Serializes the commit's content: the marker followed by the
    /// content bytes. The commit must hold content.
    pub fn to_bytes(&self) -> (r: Vec<u8>)
        requires
            self.data is Some,
        ensures
            r@ == serial_spec(self.data->0@),
    {
        let mut v: Vec<u8> = Vec::new();
        v.push(99u8);
        v.push(111u8);
        v.push(109u8);
        v.push(109u8);
        v.push(105u8);
        v.push(116u8);
        v.push(10u8);
        proof {
            assert(v@ =~= marker_seq());
        }
        let data = match &self.data {
            Some(d) => d,
            None => unreached(),
        };
        let mut i: usize = 0;
        while i < data.len()
            invariant
                i <= data.len(),
                v@ =~= marker_seq() + data@.take(i as int),
            decreases data.len() - i,
        {
            v.push(data[i]);
            i = i + 1;
            proof {
                assert(v@ =~= marker_seq() + data@.take(i as int));
            }
        }
        proof {
            assert(data@.take(data.len() as int) =~= data@);
        }
        v
    }

    /// Finalizes the commit: computes the digest of the serialized
    /// content and stores it, leaving the content unchanged. The commit
    /// must hold content; finalizing without content is a contract
    /// violation, not a recoverable error.
    pub fn update(&mut self)
        requires
            old(self).data is Some,
        ensures
            final(self).data == old(self).data,
            final(self).finalized(),
    {
        let ser = self.to_bytes();
        self.hash = Some(digest(&ser));
    }

    /// Rebuilds a commit from a digest and the bytes stored under it.
    /// Succeeds exactly when the bytes open with the commit marker;
    /// malformed bytes are rejected with `InvalidCommit`, never a
    /// panic.
    pub fn from_string(hash: &str, raw: &Vec<u8>) -> (r: Result<Commit, GitCliError>)
        ensures
            match r {
                Ok(c) => {
                    &&& parse_spec(raw@) is Some
                    &&& c.hash matches Some(h) && h@ == hash@
                    &&& c.data matches Some(d) && d@ == parse_spec(raw@)->0
                },
                Err(e) => parse_spec(raw@) is None && e == GitCliError::InvalidCommit,
            },
    {
        if raw.len() < 7 {
            return Err(GitCliError::InvalidCommit);
        }
        let marker: [u8; 7] = [99u8, 111u8, 109u8, 109u8, 105u8, 116u8, 10u8];
        let mut i: usize = 0;
        while i < 7
            invariant
                i <= 7,
                raw@.len() >= 7,
                marker@ =~= marker_seq(),
                forall|j: int| 0 <= j < i ==> raw@[j] == marker_seq()[j],
            decreases 7 - i,
        {
            if raw[i] != marker[i] {
                proof {
                    assert(raw@.take(7)[i as int] != marker_seq()[i as int]);
                }
                return Err(GitCliError::InvalidCommit);
            }
            i = i + 1;
        }
        proof {
            assert(raw@.take(7) =~= marker_seq());
        }
        let content = slice_to_vec(slice_subrange(raw.as_slice(), 7, raw.len()));
        proof {
            assert(content@ =~= raw@.skip(7));
        }
        Ok(Commit { hash: Some(hash.to_owned()), data: Some(content) })
    }
}

/// Round trip: serialized commit content always parses back to exactly
/// the content it was built from.
pub proof fn lemma_serial_round_trip(data: Seq<u8>)
    ensures
        parse_spec(serial_spec(data)) == Some(data),
{
    assert(serial_spec(data).take(7) =~= marker_seq());
    assert(serial_spec(data).skip(7) =~= data);
}

/// Round trip: for a finalized commit, parsing its serialized bytes
/// yields its own content, so rebuilding it under its own digest
/// restores the commit.
pub proof fn lemma_commit_round_trip(c: Commit)
    requires
        c.finalized(),
    ensures
        parse_spec(serial_spec(c.data->0@)) == Some(c.data->0@),
        c.hash->0@ == digest_spec(serial_spec(c.data->0@)),
{
    lemma_serial_round_trip(c.data->0@);
}

/// Finalizing twice with unchanged content fixes the same digest both
/// times: the first and the second finalization agree.
pub proof fn lemma_finalize_idempotent(c0: Commit, c1: Commit, c2: Commit)
    requires
        c0.data is Some,
        c1.data == c0.data,
        c1.finalized(),
        c2.data == c1.data,
        c2.finalized(),
    ensures
        c2.hash->0@ == c1.hash->0@,
{
}

} // verus!
