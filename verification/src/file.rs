use crate::commit::{lemma_serial_round_trip, parse_spec, serial_spec, Commit};
use crate::digest::digest_spec;
use crate::error::GitCliError;
use crate::types::Blob;
use vstd::prelude::*;
use vstd::slice::slice_to_vec;

verus! {

/// The map an association list denotes: later entries win over earlier
/// ones with the same key.
pub open spec fn assoc_map<K: View, V: View>(s: Seq<(K, V)>) -> Map<K::V, V::V>
    decreases s.len(),
{
    if s.len() == 0 {
        Map::empty()
    } else {
        assoc_map(s.drop_last()).insert(s.last().0@, s.last().1@)
    }
}

proof fn lemma_assoc_map_push<K: View, V: View>(s: Seq<(K, V)>, e: (K, V))
    ensures
        assoc_map(s.push(e)) == assoc_map(s).insert(e.0@, e.1@),
{
    assert(s.push(e).drop_last() =~= s);
    assert(s.push(e).last() == e);
}

proof fn lemma_assoc_map_no_key<K: View, V: View>(s: Seq<(K, V)>, k: K::V)
    requires
        forall|j: int| 0 <= j < s.len() ==> s[j].0@ != k,
    ensures
        !assoc_map(s).contains_key(k),
    decreases s.len(),
{
    if s.len() > 0 {
        lemma_assoc_map_no_key(s.drop_last(), k);
    }
}

proof fn lemma_assoc_map_match<K: View, V: View>(s: Seq<(K, V)>, i: int, k: K::V)
    requires
        0 <= i < s.len(),
        s[i].0@ == k,
        forall|j: int| i < j < s.len() ==> s[j].0@ != k,
    ensures
        assoc_map(s).contains_key(k),
        assoc_map(s)[k] == s[i].1@,
    decreases s.len(),
{
    if i < s.len() - 1 {
        lemma_assoc_map_match(s.drop_last(), i, k);
    }
}

/// The name of the reserved repository metadata directory.
pub open spec fn gitcli_name() -> Seq<char> {
    seq!['.', 'g', 'i', 't', 'c', 'l', 'i']
}

/// The name of the object store directory inside the metadata
/// directory.
pub open spec fn objects_name() -> Seq<char> {
    seq!['o', 'b', 'j', 'e', 'c', 't', 's']
}

/// The fixed six-character marker that opens the HEAD record; the ref
/// path follows it immediately.
pub open spec fn head_marker() -> Seq<char> {
    seq!['r', 'e', 'f', ':', ' ', ' ']
}

/// Path join: the two parts with a single separator between them.
pub open spec fn join_spec(a: Seq<char>, b: Seq<char>) -> Seq<char> {
    a + seq!['/'] + b
}

fn join(a: &str, b: &str) -> (r: String)
    ensures
        r@ == join_spec(a@, b@),
{
    let mut s = a.to_owned();
    s.append("/");
    s.append(b);
    proof {
        reveal_strlit("/");
        assert(s@ =~= join_spec(a@, b@));
    }
    s
}

/// The parent of a path: everything before the last separator, or
/// nothing when the path has no separator left.
pub open spec fn parent_spec(p: Seq<char>) -> Option<Seq<char>>
    decreases p.len(),
{
    if p.len() == 0 {
        None
    } else if p.last() == '/' {
        Some(p.drop_last())
    } else {
        parent_spec(p.drop_last())
    }
}

proof fn lemma_parent_len(p: Seq<char>)
    ensures
        parent_spec(p) matches Some(q) ==> q.len() < p.len(),
    decreases p.len(),
{
    if p.len() > 0 && p.last() != '/' {
        lemma_parent_len(p.drop_last());
    }
}

/// Whether a directory at this path holds the repository metadata
/// directory, judged against the set of directories that exist.
pub open spec fn is_gitcli_spec(path: Seq<char>, dirs: Seq<String>) -> bool {
    exists|j: int| 0 <= j < dirs.len() && dirs[j]@ == join_spec(path, gitcli_name())
}

/// The repository root found by walking upward from a starting
/// directory: the deepest ancestor (the directory itself included)
/// that holds the metadata directory, or nothing when no ancestor
/// does.
pub open spec fn find_root_spec(p: Seq<char>, dirs: Seq<String>) -> Option<Seq<char>>
    decreases p.len(),
    via find_root_spec_dec
{
    if is_gitcli_spec(p, dirs) {
        Some(p)
    } else {
        match parent_spec(p) {
            Some(q) => find_root_spec(q, dirs),
            None => None,
        }
    }
}

#[via_fn]
proof fn find_root_spec_dec(p: Seq<char>, dirs: Seq<String>) {
    lemma_parent_len(p);
}

/// The storage handle of a repository: its directory layout together
/// with the state of its object store, its refs and its HEAD record.
/// Objects are keyed by their full sharded path, refs by their full
/// path; HEAD is a single record.
pub struct FileService {
    pub root_dir: String,
    pub gitcli_dir: String,
    pub object_dir: String,
    pub objects: Vec<(String, Vec<u8>)>,
    pub refs: Vec<(String, String)>,
    pub head: Option<String>,
}

impl FileService {
    /// The object store: a map from sharded object path to raw bytes.
    pub open spec fn objects_map(&self) -> Map<Seq<char>, Seq<u8>> {
        assoc_map(self.objects@)
    }

    /// The refs: a map from ref path to the digest it points to.
    pub open spec fn refs_map(&self) -> Map<Seq<char>, Seq<char>> {
        assoc_map(self.refs@)
    }

    /// The content of the HEAD record, or nothing when HEAD is unset.
    pub open spec fn head_content(&self) -> Option<Seq<char>> {
        match self.head {
            Some(h) => Some(h@),
            None => None,
        }
    }

    /// The ref path HEAD names: the HEAD content after the marker,
    /// joined under the metadata directory. Nothing when HEAD is unset
    /// or shorter than the marker.
    pub open spec fn head_ref_path(&self) -> Option<Seq<char>> {
        match self.head_content() {
            Some(h) => if h.len() >= 6 {
                Some(join_spec(self.gitcli_dir@, h.skip(6)))
            } else {
                None
            },
            None => None,
        }
    }

    /// The sharded path of an object: the first two digest characters
    /// name the shard directory, the rest name the file.
    pub open spec fn object_path_spec(&self, hash: Seq<char>) -> Seq<char> {
        join_spec(join_spec(self.object_dir@, hash.take(2)), hash.skip(2))
    }

    /// Derives the sharded store path for a digest.
    pub fn object_path(&self, hash: &str) -> (r: String)
        requires
            hash@.len() >= 2,
        ensures
            r@ == self.object_path_spec(hash@),
    {
        let n = hash.unicode_len();
        let pre = hash.substring_char(0, 2);
        let suf = hash.substring_char(2, n);
        proof {
            assert(pre@ =~= hash@.take(2));
            assert(suf@ =~= hash@.skip(2));
        }
        let d = join(self.object_dir.as_str(), pre);
        join(d.as_str(), suf)
    }

    /// Whether the repository metadata directory exists directly under
    /// the given path, judged against the directories that exist.
    pub fn is_gitcli(path: &str, existing_dirs: &Vec<String>) -> (b: bool)
        ensures
            b == is_gitcli_spec(path@, existing_dirs@),
    {
        let target = join(path, ".gitcli");
        proof {
            reveal_strlit(".gitcli");
            assert(".gitcli"@ =~= gitcli_name());
        }
        let mut j: usize = 0;
        while j < existing_dirs.len()
            invariant
                j <= existing_dirs.len(),
                target@ == join_spec(path@, gitcli_name()),
                forall|t: int| 0 <= t < j ==> existing_dirs@[t]@ != target@,
            decreases existing_dirs.len() - j,
        {
            if existing_dirs[j] == target {
                return true;
            }
            j = j + 1;
        }
        false
    }

    fn parent_of(p: &str) -> (r: Option<String>)
        ensures
            match r {
                Some(q) => parent_spec(p@) == Some(q@),
                None => parent_spec(p@) is None,
            },
    {
        let n = p.unicode_len();
        let mut i: usize = n;
        proof {
            assert(p@.take(n as int) =~= p@);
        }
        loop
            invariant
                i <= p@.len(),
                parent_spec(p@) == parent_spec(p@.take(i as int)),
            decreases i,
        {
            if i == 0 {
                return None;
            }
            let c = p.get_char(i - 1);
            if c == '/' {
                let q = p.substring_char(0, i - 1).to_owned();
                proof {
                    assert(p@.take(i as int).drop_last() =~= p@.take(i - 1));
                    assert(q@ =~= p@.take(i - 1));
                }
                return Some(q);
            }
            proof {
                assert(p@.take(i as int).drop_last() =~= p@.take(i - 1));
            }
            i = i - 1;
        }
    }

    /// Walks upward from a starting directory to the deepest ancestor
    /// holding the metadata directory; fails with `NoDirectory` when no
    /// ancestor holds it.
    pub fn find_root(current_dir: &str, existing_dirs: &Vec<String>) -> (r: Result<
        String,
        GitCliError,
    >)
        ensures
            match r {
                Ok(root) => find_root_spec(current_dir@, existing_dirs@) == Some(root@),
                Err(e) => find_root_spec(current_dir@, existing_dirs@) is None && e
                    == GitCliError::NoDirectory,
            },
    {
        let mut cur: String = current_dir.to_owned();
        loop
            invariant
                find_root_spec(cur@, existing_dirs@) == find_root_spec(
                    current_dir@,
                    existing_dirs@,
                ),
            decreases cur@.len(),
        {
            if Self::is_gitcli(cur.as_str(), existing_dirs) {
                return Ok(cur);
            }
            match Self::parent_of(cur.as_str()) {
                Some(p) => {
                    proof {
                        lemma_parent_len(cur@);
                    }
                    cur = p;
                },
                None => {
                    return Err(GitCliError::NoDirectory);
                },
            }
        }
    }

    /// Builds the storage handle for the repository found from the
    /// starting directory: the metadata and object directories hang
    /// under the found root, and the store starts with no objects, no
    /// refs and no HEAD record.
    pub fn new(current_dir: &str, existing_dirs: &Vec<String>) -> (r: Result<
        FileService,
        GitCliError,
    >)
        ensures
            match r {
                Ok(fs) => {
                    &&& find_root_spec(current_dir@, existing_dirs@) == Some(fs.root_dir@)
                    &&& fs.gitcli_dir@ == join_spec(fs.root_dir@, gitcli_name())
                    &&& fs.object_dir@ == join_spec(fs.gitcli_dir@, objects_name())
                    &&& fs.objects_map() == Map::<Seq<char>, Seq<u8>>::empty()
                    &&& fs.refs_map() == Map::<Seq<char>, Seq<char>>::empty()
                    &&& fs.head_content() is None
                },
                Err(e) => find_root_spec(current_dir@, existing_dirs@) is None && e
                    == GitCliError::NoDirectory,
            },
    {
        let root_dir = match Self::find_root(current_dir, existing_dirs) {
            Ok(p) => p,
            Err(e) => {
                return Err(e);
            },
        };
        let gitcli_dir = join(root_dir.as_str(), ".gitcli");
        let object_dir = join(gitcli_dir.as_str(), "objects");
        proof {
            reveal_strlit(".gitcli");
            reveal_strlit("objects");
            assert(".gitcli"@ =~= gitcli_name());
            assert("objects"@ =~= objects_name());
        }
        Ok(FileService { root_dir, gitcli_dir, object_dir, objects: Vec::new(), refs: Vec::new(), head: None })
    }

    /// Sets the HEAD record to name the given ref path: the marker
    /// followed by the path. HEAD then resolves to that path under the
    /// metadata directory.
    pub fn init_head(&mut self, ref_path: &str)
        ensures
            final(self).head_content() == Some(head_marker() + ref_path@),
            final(self).head_ref_path() == Some(join_spec(old(self).gitcli_dir@, ref_path@)),
            final(self).objects_map() == old(self).objects_map(),
            final(self).refs_map() == old(self).refs_map(),
            final(self).root_dir@ == old(self).root_dir@,
            final(self).gitcli_dir@ == old(self).gitcli_dir@,
            final(self).object_dir@ == old(self).object_dir@,
    {
        let mut h = "ref:  ".to_owned();
        proof {
            reveal_strlit("ref:  ");
            assert(h@ =~= head_marker());
        }
        h.append(ref_path);
        self.head = Some(h);
        proof {
            assert((head_marker() + ref_path@).skip(6) =~= ref_path@);
        }
    }

    /// Resolves HEAD: strips the fixed marker from the HEAD record and
    /// returns the named ref path joined under the metadata directory.
    /// An absent HEAD is reported as `NotFound`; a HEAD record shorter
    /// than the marker is malformed and rejected with `InvalidIndex`,
    /// never silently resolved to a wrong path.
    pub fn get_head_ref(&self) -> (r: Result<String, GitCliError>)
        ensures
            match r {
                Ok(p) => self.head_ref_path() == Some(p@),
                Err(e) => self.head_ref_path() is None && match self.head_content() {
                    None => e == GitCliError::NotFound,
                    Some(h) => h.len() < 6 && e == GitCliError::InvalidIndex,
                },
            },
    {
        match &self.head {
            None => Err(GitCliError::NotFound),
            Some(h) => {
                let n = h.as_str().unicode_len();
                if n < 6 {
                    Err(GitCliError::InvalidIndex)
                } else {
                    let rest = h.as_str().substring_char(6, n);
                    proof {
                        assert(rest@ =~= h@.skip(6));
                    }
                    Ok(join(self.gitcli_dir.as_str(), rest))
                }
            },
        }
    }

    /// Reads the digest a ref points to. An unset ref is a valid,
    /// distinguishable state, reported as an absent value, not an
    /// error.
    pub fn get_hash_from_ref(&self, ref_path: &str) -> (r: Option<String>)
        ensures
            match r {
                Some(h) => self.refs_map().contains_key(ref_path@) && h@ == self.refs_map()[
                    ref_path@
                ],
                None => !self.refs_map().contains_key(ref_path@),
            },
    {
        let target = ref_path.to_owned();
        let mut i: usize = self.refs.len();
        while i > 0
            invariant
                i <= self.refs@.len(),
                target@ == ref_path@,
                forall|j: int| i <= j < self.refs@.len() ==> self.refs@[j].0@ != ref_path@,
            decreases i,
        {
            i = i - 1;
            if self.refs[i].0 == target {
                proof {
                    lemma_assoc_map_match(self.refs@, i as int, ref_path@);
                }
                return Some(self.refs[i].1.clone());
            }
        }
        proof {
            lemma_assoc_map_no_key(self.refs@, ref_path@);
        }
        None
    }

    /// Writes a ref: the ref then points to exactly the given digest,
    /// fully replacing whatever it pointed to before. This is the sole
    /// mutation point for "current commit" state.
    pub fn write_ref(&mut self, ref_path: &str, hash: &str) -> (r: Result<(), GitCliError>)
        ensures
            r is Ok,
            final(self).refs_map() == old(self).refs_map().insert(ref_path@, hash@),
            final(self).objects_map() == old(self).objects_map(),
            final(self).head_content() == old(self).head_content(),
            final(self).root_dir@ == old(self).root_dir@,
            final(self).gitcli_dir@ == old(self).gitcli_dir@,
            final(self).object_dir@ == old(self).object_dir@,
    {
        self.refs.push((ref_path.to_owned(), hash.to_owned()));
        proof {
            lemma_assoc_map_push(old(self).refs@, self.refs@.last());
        }
        Ok(())
    }

    /// Writes an object under its digest: the store then maps the
    /// digest's sharded path to exactly the given bytes. Entries are
    /// never removed; a write to an existing digest rewrites identical
    /// content by content-addressing.
    pub fn write_object(&mut self, hash: &str, data: &Vec<u8>) -> (r: Result<(), GitCliError>)
        requires
            hash@.len() >= 2,
        ensures
            r is Ok,
            final(self).objects_map() == old(self).objects_map().insert(
                old(self).object_path_spec(hash@),
                data@,
            ),
            final(self).refs_map() == old(self).refs_map(),
            final(self).head_content() == old(self).head_content(),
            final(self).root_dir@ == old(self).root_dir@,
            final(self).gitcli_dir@ == old(self).gitcli_dir@,
            final(self).object_dir@ == old(self).object_dir@,
    {
        let path = self.object_path(hash);
        let bytes = slice_to_vec(data.as_slice());
        self.objects.push((path, bytes));
        proof {
            lemma_assoc_map_push(old(self).objects@, self.objects@.last());
        }
        Ok(())
    }

    /// Reads the object stored under a digest. A missing object is a
    /// distinct `NotFound` error, never confused with any other
    /// failure and never a panic.
    pub fn read_object(&self, hash: &str) -> (r: Result<Vec<u8>, GitCliError>)
        requires
            hash@.len() >= 2,
        ensures
            match r {
                Ok(d) => self.objects_map().contains_key(self.object_path_spec(hash@)) && d@
                    == self.objects_map()[self.object_path_spec(hash@)],
                Err(e) => !self.objects_map().contains_key(self.object_path_spec(hash@)) && e
                    == GitCliError::NotFound,
            },
    {
        let path = self.object_path(hash);
        let mut i: usize = self.objects.len();
        while i > 0
            invariant
                i <= self.objects@.len(),
                path@ == self.object_path_spec(hash@),
                forall|j: int| i <= j < self.objects@.len() ==> self.objects@[j].0@ != path@,
            decreases i,
        {
            i = i - 1;
            if self.objects[i].0 == path {
                proof {
                    lemma_assoc_map_match(self.objects@, i as int, path@);
                }
                return Ok(slice_to_vec(self.objects[i].1.as_slice()));
            }
        }
        proof {
            lemma_assoc_map_no_key(self.objects@, path@);
        }
        Err(GitCliError::NotFound)
    }

    /// Persists a blob by copy: delegates to the object store under
    /// the blob's own digest.
    pub fn write_blob(&mut self, blob: &Blob) -> (r: Result<(), GitCliError>)
        requires
            blob.wf(),
        ensures
            r is Ok,
            final(self).objects_map() == old(self).objects_map().insert(
                old(self).object_path_spec(blob.hash@),
                blob.data@,
            ),
            final(self).refs_map() == old(self).refs_map(),
            final(self).head_content() == old(self).head_content(),
            final(self).root_dir@ == old(self).root_dir@,
            final(self).gitcli_dir@ == old(self).gitcli_dir@,
            final(self).object_dir@ == old(self).object_dir@,
    {
        proof {
            assert(blob.hash@.len() == 16);
        }
        self.write_object(blob.hash.as_str(), &blob.data)
    }

    /// Reconstructs the commit stored under a digest: reads the object
    /// and parses it. A missing object is `NotFound`; stored bytes
    /// that do not parse as a commit are `InvalidCommit`.
    pub fn read_commit(&self, hash: &str) -> (r: Result<Commit, GitCliError>)
        requires
            hash@.len() >= 2,
        ensures
            match r {
                Ok(c) => {
                    &&& self.objects_map().contains_key(self.object_path_spec(hash@))
                    &&& parse_spec(self.objects_map()[self.object_path_spec(hash@)]) is Some
                    &&& c.hash matches Some(h) && h@ == hash@
                    &&& c.data matches Some(d) && d@ == parse_spec(
                        self.objects_map()[self.object_path_spec(hash@)],
                    )->0
                },
                Err(e) => {
                    ||| (!self.objects_map().contains_key(self.object_path_spec(hash@)) && e
                        == GitCliError::NotFound)
                    ||| (self.objects_map().contains_key(self.object_path_spec(hash@))
                        && parse_spec(self.objects_map()[self.object_path_spec(hash@)]) is None
                        && e == GitCliError::InvalidCommit)
                },
            },
    {
        match self.read_object(hash) {
            Ok(d) => Commit::from_string(hash, &d),
            Err(e) => Err(e),
        }
    }

    /// Persists a commit: finalizes it, writes its serialized form
    /// into the object store under its digest, resolves HEAD and
    /// overwrites the named ref with the digest, unconditionally
    /// discarding the prior digest. When HEAD cannot be resolved the
    /// object write stands but no ref changes, and HEAD's own error is
    /// returned. The commit must hold content.
    pub fn write_commit(&mut self, commit: &mut Commit) -> (r: Result<(), GitCliError>)
        requires
            old(commit).data is Some,
        ensures
            final(commit).data == old(commit).data,
            final(commit).finalized(),
            final(self).objects_map() == old(self).objects_map().insert(
                old(self).object_path_spec(digest_spec(serial_spec(old(commit).data->0@))),
                serial_spec(old(commit).data->0@),
            ),
            final(self).head_content() == old(self).head_content(),
            final(self).root_dir@ == old(self).root_dir@,
            final(self).gitcli_dir@ == old(self).gitcli_dir@,
            final(self).object_dir@ == old(self).object_dir@,
            match r {
                Ok(_) => {
                    &&& old(self).head_ref_path() is Some
                    &&& final(self).refs_map() == old(self).refs_map().insert(
                        old(self).head_ref_path()->0,
                        digest_spec(serial_spec(old(commit).data->0@)),
                    )
                },
                Err(e) => {
                    &&& old(self).head_ref_path() is None
                    &&& final(self).refs_map() == old(self).refs_map()
                    &&& match old(self).head_content() {
                        None => e == GitCliError::NotFound,
                        Some(h) => h.len() < 6 && e == GitCliError::InvalidIndex,
                    }
                },
            },
    {
        commit.update();
        let ser = commit.to_bytes();
        let hash_str: String = match &commit.hash {
            Some(h) => h.clone(),
            None => unreached(),
        };
        proof {
            assert(hash_str@.len() == 16);
        }
        match self.write_object(hash_str.as_str(), &ser) {
            Ok(()) => {},
            Err(e) => {
                return Err(e);
            },
        }
        let head = match self.get_head_ref() {
            Ok(p) => p,
            Err(e) => {
                return Err(e);
            },
        };
        match self.write_ref(head.as_str(), hash_str.as_str()) {
            Ok(()) => Ok(()),
            Err(e) => Err(e),
        }
    }
}

/// Round trip: once an object is written under a digest, the store
/// maps that digest's path to exactly the bytes written, so a read of
/// the same digest returns them.
pub proof fn lemma_object_round_trip(fs0: FileService, fs1: FileService, hash: Seq<char>, data: Seq<u8>)
    requires
        fs1.objects_map() == fs0.objects_map().insert(fs0.object_path_spec(hash), data),
        fs1.object_dir@ == fs0.object_dir@,
    ensures
        fs1.objects_map().contains_key(fs1.object_path_spec(hash)),
        fs1.objects_map()[fs1.object_path_spec(hash)] == data,
{
}

/// Round trip: once a commit with this content has been persisted, the
/// store holds its serialized form under its digest's path, and those
/// bytes parse back to exactly the content.
pub proof fn lemma_persisted_commit_round_trip(fs0: FileService, fs1: FileService, content: Seq<u8>)
    requires
        fs1.objects_map() == fs0.objects_map().insert(
            fs0.object_path_spec(digest_spec(serial_spec(content))),
            serial_spec(content),
        ),
        fs1.object_dir@ == fs0.object_dir@,
    ensures
        fs1.objects_map().contains_key(fs1.object_path_spec(digest_spec(serial_spec(content)))),
        parse_spec(
            fs1.objects_map()[fs1.object_path_spec(digest_spec(serial_spec(content)))],
        ) == Some(content),
{
    lemma_object_round_trip(fs0, fs1, digest_spec(serial_spec(content)), serial_spec(content));
    lemma_serial_round_trip(content);
}

} // verus!
