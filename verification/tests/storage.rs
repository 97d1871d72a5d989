use bytes::Bytes;
use content_store::storage::{Context, ObjectKind, StorageReadError};

type Answer = Result<Option<Bytes>, StorageReadError<String>>;

const KINDS: [ObjectKind; 5] = [
    ObjectKind::Chunk,
    ObjectKind::Block,
    ObjectKind::Entry,
    ObjectKind::Tree,
    ObjectKind::Head,
];

const HASHINGS: [content_store::storage::HashAlgorithm; 6] = [
    content_store::storage::HashAlgorithm::Sha512,
    content_store::storage::HashAlgorithm::Sha256,
    content_store::storage::HashAlgorithm::Sha3_256,
    content_store::storage::HashAlgorithm::Sha3_512,
    content_store::storage::HashAlgorithm::Blake2b,
    content_store::storage::HashAlgorithm::Blake2s,
];

fn context() -> Context {
    Context::new(content_store::storage::HashAlgorithm::Sha256, 10, 20, 30, 40)
}

fn scrambled(seed: u64, len: usize) -> Vec<u8> {
    let mut state = seed ^ 0x9e3779b97f4a7c15;
    let mut out = Vec::with_capacity(len);
    for _ in 0..len {
        state ^= state << 13;
        state ^= state >> 7;
        state ^= state << 17;
        out.push(state as u8);
    }
    out
}

fn is_invalid_length(answer: &Answer) -> bool {
    matches!(answer, Err(StorageReadError::InvalidLength))
}

fn is_invalid_hash(answer: &Answer) -> bool {
    matches!(answer, Err(StorageReadError::InvalidHash))
}

#[test]
fn context_keeps_its_settings() {
    let context = Context::new(content_store::storage::HashAlgorithm::Blake2b, 1, 2, 3, 4);
    assert_eq!(context.hash_algorithm(), content_store::storage::HashAlgorithm::Blake2b);
    assert_eq!(context.chunk_size(), 1);
    assert_eq!(context.block_size(), 2);
    assert_eq!(context.entry_size(), 3);
    assert_eq!(context.tree_size(), 4);
}

#[test]
fn context_limits_by_kind() {
    let context = context();
    assert_eq!(context.size_limit(ObjectKind::Chunk), Some(10));
    assert_eq!(context.size_limit(ObjectKind::Block), Some(20));
    assert_eq!(context.size_limit(ObjectKind::Entry), Some(30));
    assert_eq!(context.size_limit(ObjectKind::Tree), Some(40));
    assert_eq!(context.size_limit(ObjectKind::Head), None);
}

#[test]
fn context_is_a_value() {
    let a = context();
    let b = a.clone();
    assert_eq!(a, b);
    assert_ne!(a, Context::new(content_store::storage::HashAlgorithm::Sha256, 10, 20, 30, 41));
    assert_ne!(a, Context::new(content_store::storage::HashAlgorithm::Sha512, 10, 20, 30, 40));
}

#[test]
fn the_storage_algorithm_is_the_hash_algorithm() {
    let algorithm: content_store::hash::HashAlgorithm = content_store::storage::HashAlgorithm::Sha512;
    assert_eq!(algorithm, content_store::hash::HashAlgorithm::Sha512);
}

#[test]
fn kind_names() {
    let names: Vec<&str> = KINDS.iter().map(|kind| kind.name()).collect();
    assert_eq!(names, vec!["chunk", "block", "entry", "tree", "head"]);
}

#[test]
fn kind_tags_are_distinct() {
    let tags: Vec<u8> = KINDS.iter().map(|kind| kind.tag()).collect();
    assert_eq!(tags, vec![0, 1, 2, 3, 4]);
}

#[test]
fn certify_passes_a_payload_that_fits_and_matches() {
    let context = context();
    let payload = Bytes::from_static(b"0123456789");
    let hash = context.hash_algorithm().hash(&payload);
    let answer: Answer = Ok(Some(payload.clone()));
    let checked = context.certify(ObjectKind::Chunk, &hash, answer);
    assert_eq!(checked.unwrap(), Some(payload));
}

#[test]
fn certify_rejects_a_payload_over_the_limit() {
    let context = context();
    let payload = Bytes::from_static(b"0123456789a");
    let hash = context.hash_algorithm().hash(&payload);
    let checked: Answer = context.certify(ObjectKind::Chunk, &hash, Ok(Some(payload.clone())));
    assert!(is_invalid_length(&checked));
    let checked: Answer = context.certify(ObjectKind::Block, &hash, Ok(Some(payload)));
    assert!(checked.unwrap().is_some());
}

#[test]
fn certify_applies_each_kinds_own_limit() {
    let context = context();
    for (kind, limit) in [
        (ObjectKind::Chunk, 10usize),
        (ObjectKind::Block, 20),
        (ObjectKind::Entry, 30),
        (ObjectKind::Tree, 40),
    ] {
        let fits = Bytes::from(vec![7u8; limit]);
        let hash = context.hash_algorithm().hash(&fits);
        let checked: Answer = context.certify(kind, &hash, Ok(Some(fits.clone())));
        assert_eq!(checked.unwrap(), Some(fits));
        let over = Bytes::from(vec![7u8; limit + 1]);
        let hash = context.hash_algorithm().hash(&over);
        let checked: Answer = context.certify(kind, &hash, Ok(Some(over)));
        assert!(is_invalid_length(&checked));
    }
}

#[test]
fn certify_puts_no_limit_on_a_head() {
    let context = context();
    let payload = Bytes::from(vec![1u8; 10_000]);
    let hash = context.hash_algorithm().hash(&payload);
    let checked: Answer = context.certify(ObjectKind::Head, &hash, Ok(Some(payload.clone())));
    assert_eq!(checked.unwrap(), Some(payload));
}

#[test]
fn certify_rejects_a_payload_the_hash_does_not_name() {
    let context = context();
    let payload = Bytes::from_static(b"hello");
    let other = context.hash_algorithm().hash(b"hellp");
    let checked: Answer = context.certify(ObjectKind::Chunk, &other, Ok(Some(payload.clone())));
    assert!(is_invalid_hash(&checked));
    let wrong_algorithm = content_store::storage::HashAlgorithm::Sha3_256.hash(&payload);
    let checked: Answer = context.certify(ObjectKind::Chunk, &wrong_algorithm, Ok(Some(payload.clone())));
    assert!(is_invalid_hash(&checked));
    let null = content_store::hash::Hash::default();
    let checked: Answer = context.certify(ObjectKind::Chunk, &null, Ok(Some(payload)));
    assert!(is_invalid_hash(&checked));
}

#[test]
fn certify_judges_the_length_first() {
    let context = context();
    let payload = Bytes::from(vec![0u8; 11]);
    let unrelated = context.hash_algorithm().hash(b"something else");
    let checked: Answer = context.certify(ObjectKind::Chunk, &unrelated, Ok(Some(payload)));
    assert!(is_invalid_length(&checked));
}

#[test]
fn certify_passes_absence_and_errors_on() {
    let context = context();
    let hash = context.hash_algorithm().hash(b"hello");
    for kind in KINDS.iter() {
        let checked: Answer = context.certify(*kind, &hash, Ok(None));
        assert_eq!(checked.unwrap(), None);
        let checked: Answer =
            context.certify(*kind, &hash, Err(StorageReadError::Other("offline".to_string())));
        assert!(matches!(checked, Err(StorageReadError::Other(cause)) if cause == "offline"));
        let checked: Answer = context.certify(*kind, &hash, Err(StorageReadError::InvalidHash));
        assert!(is_invalid_hash(&checked));
        let checked: Answer = context.certify(*kind, &hash, Err(StorageReadError::InvalidLength));
        assert!(is_invalid_length(&checked));
    }
}

#[test]
fn whatever_passes_is_content_addressed() {
    for algorithm in HASHINGS.iter() {
        let context = Context::new(*algorithm, 64, 64, 64, 64);
        for seed in 0..24u64 {
            let payload = Bytes::from(scrambled(seed, (seed as usize * 5) % 90));
            let asked = if seed % 3 == 0 {
                algorithm.hash(&scrambled(seed + 1000, 12))
            } else {
                algorithm.hash(&payload)
            };
            for kind in KINDS.iter() {
                let checked: Answer = context.certify(*kind, &asked, Ok(Some(payload.clone())));
                match checked {
                    Ok(Some(passed)) => {
                        assert_eq!(algorithm.hash(&passed), asked);
                        assert_eq!(passed, payload);
                        assert!(*kind == ObjectKind::Head || passed.len() <= 64);
                        assert!(seed % 3 != 0);
                    },
                    Ok(None) => panic!("a payload was checked, none may vanish"),
                    Err(StorageReadError::InvalidLength) => {
                        assert!(*kind != ObjectKind::Head && payload.len() > 64);
                    },
                    Err(StorageReadError::InvalidHash) => assert!(seed % 3 == 0),
                    Err(StorageReadError::Other(_)) => panic!("the check makes no such error"),
                }
            }
        }
    }
}

#[test]
fn errors_clone() {
    let error: StorageReadError<String> = StorageReadError::Other("offline".to_string());
    assert!(matches!(error.clone(), StorageReadError::Other(cause) if cause == "offline"));
    let error: StorageReadError<String> = StorageReadError::InvalidLength;
    assert!(matches!(error.clone(), StorageReadError::InvalidLength));
    let error: StorageReadError<String> = StorageReadError::InvalidHash;
    assert!(matches!(error.clone(), StorageReadError::InvalidHash));
}
