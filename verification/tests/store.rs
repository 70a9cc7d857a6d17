use gitcli::commit::Commit;
use gitcli::digest::digest;
use gitcli::error::GitCliError;
use gitcli::file::FileService;
use gitcli::types::Blob;

fn repo() -> FileService {
    let dirs = vec!["/repo/.gitcli".to_string()];
    FileService::new("/repo", &dirs).unwrap()
}

#[test]
fn digest_is_deterministic() {
    let b1 = b"some content".to_vec();
    let b2 = b"some content".to_vec();
    assert_eq!(digest(&b1), digest(&b1));
    assert_eq!(digest(&b1), digest(&b2));
}

#[test]
fn digest_of_empty_is_fixed() {
    assert_eq!(digest(&Vec::new()), "cbf29ce484222325");
}

#[test]
fn digest_of_hello_is_fixed() {
    assert_eq!(digest(&b"hello".to_vec()), "a430d84680aabd0b");
}

#[test]
fn digest_has_fixed_width() {
    assert_eq!(digest(&Vec::new()).len(), 16);
    assert_eq!(digest(&b"x".to_vec()).len(), 16);
    assert_eq!(digest(&vec![0u8; 1000]).len(), 16);
}

#[test]
fn digest_corpus_is_collision_free() {
    let corpus: Vec<Vec<u8>> = vec![
        b"".to_vec(),
        b"a".to_vec(),
        b"b".to_vec(),
        b"ab".to_vec(),
        b"ba".to_vec(),
        b"hello".to_vec(),
        b"hello\n".to_vec(),
        b"snapshot-1".to_vec(),
        b"snapshot-2".to_vec(),
        vec![0u8],
        vec![0u8, 0u8],
        vec![255u8, 1u8, 2u8],
    ];
    for i in 0..corpus.len() {
        for j in 0..corpus.len() {
            if i != j {
                assert_ne!(digest(&corpus[i]), digest(&corpus[j]));
            }
        }
    }
}

#[test]
fn object_write_read_round_trip() {
    let mut fs = repo();
    let data = b"object payload".to_vec();
    let d = digest(&data);
    fs.write_object(&d, &data).unwrap();
    assert_eq!(fs.read_object(&d).unwrap(), data);
}

#[test]
fn object_path_is_sharded() {
    let fs = repo();
    assert_eq!(fs.object_path("abcd"), "/repo/.gitcli/objects/ab/cd");
}

#[test]
fn missing_object_is_not_found() {
    let fs = repo();
    let d = digest(&b"never stored".to_vec());
    assert!(matches!(fs.read_object(&d), Err(GitCliError::NotFound)));
}

#[test]
fn commit_serialization_round_trip() {
    let mut c = Commit::new(b"commit body".to_vec());
    c.update();
    let raw = c.to_bytes();
    let hash = c.hash.clone().unwrap();
    let c2 = Commit::from_string(&hash, &raw).unwrap();
    assert_eq!(c2.hash.unwrap(), hash);
    assert_eq!(c2.data.unwrap(), b"commit body".to_vec());
}

#[test]
fn from_string_rejects_malformed_bytes() {
    let short = b"comm".to_vec();
    assert!(matches!(
        Commit::from_string("anyhash", &short),
        Err(GitCliError::InvalidCommit)
    ));
    let wrong = b"xommit\nbody".to_vec();
    assert!(matches!(
        Commit::from_string("anyhash", &wrong),
        Err(GitCliError::InvalidCommit)
    ));
}

#[test]
fn finalize_is_idempotent() {
    let mut c = Commit::new(b"unchanged".to_vec());
    c.update();
    let first = c.hash.clone().unwrap();
    c.update();
    let second = c.hash.clone().unwrap();
    assert_eq!(first, second);
}

#[test]
fn missing_ref_is_absent_not_error() {
    let fs = repo();
    assert!(fs.get_hash_from_ref("/repo/.gitcli/refs/heads/master").is_none());
}

#[test]
fn ref_write_then_read() {
    let mut fs = repo();
    fs.write_ref("/repo/.gitcli/refs/heads/master", "cbf29ce484222325")
        .unwrap();
    assert_eq!(
        fs.get_hash_from_ref("/repo/.gitcli/refs/heads/master"),
        Some("cbf29ce484222325".to_string())
    );
}

#[test]
fn ref_overwrite_replaces_content() {
    let mut fs = repo();
    fs.write_ref("/repo/.gitcli/refs/heads/master", "aaaaaaaaaaaaaaaa")
        .unwrap();
    fs.write_ref("/repo/.gitcli/refs/heads/master", "bbbbbbbbbbbbbbbb")
        .unwrap();
    assert_eq!(
        fs.get_hash_from_ref("/repo/.gitcli/refs/heads/master"),
        Some("bbbbbbbbbbbbbbbb".to_string())
    );
}

#[test]
fn head_resolves_to_named_ref() {
    let mut fs = repo();
    fs.init_head("refs/heads/dev");
    assert_eq!(fs.get_head_ref().unwrap(), "/repo/.gitcli/refs/heads/dev");
}

#[test]
fn missing_head_is_not_found() {
    let fs = repo();
    assert!(matches!(fs.get_head_ref(), Err(GitCliError::NotFound)));
}

#[test]
fn malformed_head_is_rejected() {
    let mut fs = repo();
    fs.head = Some("ref".to_string());
    assert!(matches!(fs.get_head_ref(), Err(GitCliError::InvalidIndex)));
}

#[test]
fn blob_end_to_end() {
    let mut fs = repo();
    let blob = Blob::new(b"hello".to_vec());
    fs.write_blob(&blob).unwrap();
    let d = digest(&b"hello".to_vec());
    assert_eq!(fs.read_object(&d).unwrap(), b"hello".to_vec());
}

#[test]
fn commit_end_to_end() {
    let mut fs = repo();
    fs.init_head("refs/heads/master");
    let mut c = Commit::new(b"snapshot-1".to_vec());
    fs.write_commit(&mut c).unwrap();
    let hash = c.hash.clone().unwrap();

    let ref_path = fs.get_head_ref().unwrap();
    assert_eq!(ref_path, "/repo/.gitcli/refs/heads/master");
    assert_eq!(fs.get_hash_from_ref(&ref_path), Some(hash.clone()));
    assert_eq!(fs.read_object(&hash).unwrap(), c.to_bytes());
    let back = fs.read_commit(&hash).unwrap();
    assert_eq!(back.hash.unwrap(), hash);
    assert_eq!(back.data.unwrap(), b"snapshot-1".to_vec());
}

#[test]
fn second_commit_replaces_ref_and_keeps_first_object() {
    let mut fs = repo();
    fs.init_head("refs/heads/master");
    let mut c1 = Commit::new(b"snapshot-1".to_vec());
    fs.write_commit(&mut c1).unwrap();
    let h1 = c1.hash.clone().unwrap();
    let mut c2 = Commit::new(b"snapshot-2".to_vec());
    fs.write_commit(&mut c2).unwrap();
    let h2 = c2.hash.clone().unwrap();
    assert_ne!(h1, h2);

    let ref_path = fs.get_head_ref().unwrap();
    assert_eq!(fs.get_hash_from_ref(&ref_path), Some(h2.clone()));
    assert_eq!(fs.read_commit(&h1).unwrap().data.unwrap(), b"snapshot-1".to_vec());
    assert_eq!(fs.read_commit(&h2).unwrap().data.unwrap(), b"snapshot-2".to_vec());
}

#[test]
fn write_commit_without_head_keeps_object_but_fails() {
    let mut fs = repo();
    let mut c = Commit::new(b"orphan".to_vec());
    assert!(matches!(fs.write_commit(&mut c), Err(GitCliError::NotFound)));
    let hash = c.hash.clone().unwrap();
    assert_eq!(fs.read_object(&hash).unwrap(), c.to_bytes());
}

#[test]
fn find_root_walks_upward() {
    let dirs = vec!["/a/.gitcli".to_string()];
    assert_eq!(FileService::find_root("/a/b/c", &dirs).unwrap(), "/a");
    let fs = FileService::new("/a/b/c", &dirs).unwrap();
    assert_eq!(fs.root_dir, "/a");
    assert_eq!(fs.gitcli_dir, "/a/.gitcli");
    assert_eq!(fs.object_dir, "/a/.gitcli/objects");
}

#[test]
fn find_root_fails_outside_repository() {
    let dirs = vec!["/a/.gitcli".to_string()];
    assert!(matches!(
        FileService::new("/x/y", &dirs),
        Err(GitCliError::NoDirectory)
    ));
}

#[test]
fn is_gitcli_checks_existing_dirs() {
    let dirs = vec!["/a/.gitcli".to_string(), "/b/other".to_string()];
    assert!(FileService::is_gitcli("/a", &dirs));
    assert!(!FileService::is_gitcli("/b", &dirs));
}

#[test]
fn error_messages_are_descriptive() {
    assert_eq!(GitCliError::NoDirectory.message(), "No Directory Found");
    assert_eq!(GitCliError::InvalidCommit.message(), "Invalid commit.");
    assert_eq!(GitCliError::InvalidIndex.message(), "Invalid index");
    assert_eq!(GitCliError::IoError.message(), "IO error");
    assert_eq!(GitCliError::NotFound.message(), "Not found");
}
