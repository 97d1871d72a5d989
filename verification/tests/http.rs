use bytes::Bytes;
use content_store::storage::http::{
    on_body, on_failure, on_status, request_path, HttpStorage, HttpStorageError, NextStep, STATUS_NO_CONTENT,
    STATUS_OK,
};
use content_store::storage::{ObjectKind, StorageReadError};
use reqwest::{Client, Url};

fn hash_of(bytes: &'static [u8]) -> content_store::hash::Hash {
    content_store::hash::Hash(Bytes::from_static(bytes))
}

fn storage_at(base: &str) -> HttpStorage {
    HttpStorage::new(Client::new(), Url::parse(base).unwrap())
}

/// An error of the transport's own, made without touching the network: a
/// request for something that is no address cannot be built.
fn transport_error() -> reqwest::Error {
    Client::new().get("no address at all").build().unwrap_err()
}

#[test]
fn status_200_with_a_body_is_the_object() {
    assert!(matches!(on_status(200), NextStep::ReadBody));
    let outcome = on_body(Bytes::from_static(b"abc"));
    assert_eq!(outcome.unwrap(), Some(Bytes::from_static(b"abc")));
}

#[test]
fn status_204_is_no_such_object() {
    assert!(matches!(on_status(204), NextStep::Done(Ok(None))));
}

#[test]
fn status_404_is_an_error_that_carries_the_status() {
    assert!(matches!(
        on_status(404),
        NextStep::Done(Err(StorageReadError::Other(HttpStorageError::Response(404))))
    ));
}

#[test]
fn every_other_status_is_an_error_that_carries_it() {
    for status in 100..600u16 {
        let step = on_status(status);
        if status == 200 {
            assert!(matches!(step, NextStep::ReadBody));
        } else if status == 204 {
            assert!(matches!(step, NextStep::Done(Ok(None))));
        } else {
            match step {
                NextStep::Done(Err(StorageReadError::Other(HttpStorageError::Response(carried)))) => {
                    assert_eq!(carried, status)
                },
                other => panic!("status {} gave {:?}", status, other),
            }
        }
    }
}

#[test]
fn status_constants() {
    assert_eq!(STATUS_OK, 200);
    assert_eq!(STATUS_NO_CONTENT, 204);
}

#[test]
fn an_empty_body_is_an_empty_object() {
    assert_eq!(on_body(Bytes::new()).unwrap(), Some(Bytes::new()));
}

#[test]
fn a_failure_of_the_transport_ends_the_read_with_the_cause() {
    let cause = transport_error();
    let text = cause.to_string();
    match on_failure(cause) {
        Err(StorageReadError::Other(HttpStorageError::Reqwest(carried))) => {
            assert_eq!(carried.to_string(), text);
            assert!(carried.is_builder());
        },
        other => panic!("unexpected outcome {:?}", other),
    }
}

#[test]
fn paths_name_kind_and_hash() {
    let hash = hash_of(&[0xab, 0x01, 0xff]);
    assert_eq!(request_path(ObjectKind::Chunk, &hash), "/chunk/ab01ff");
    assert_eq!(request_path(ObjectKind::Block, &hash), "/block/ab01ff");
    assert_eq!(request_path(ObjectKind::Entry, &hash), "/entry/ab01ff");
    assert_eq!(request_path(ObjectKind::Tree, &hash), "/tree/ab01ff");
    assert_eq!(request_path(ObjectKind::Head, &hash), "/head/ab01ff");
}

#[test]
fn path_of_the_null_hash() {
    assert_eq!(request_path(ObjectKind::Head, &content_store::hash::Hash::default()), "/head/");
    assert_eq!(request_path(ObjectKind::Head, &hash_of(&[0, 0])), "/head/0000");
}

#[test]
fn path_of_a_digest() {
    let hash = content_store::hash::HashAlgorithm::Sha256.hash(b"hello");
    assert_eq!(
        request_path(ObjectKind::Chunk, &hash),
        "/chunk/2cf24dba5fb0a30e26e83b2ac5b9e29e1b161e5c1fa7425e73043362938b9824"
    );
}

#[test]
fn the_address_is_the_path_under_the_base() {
    let storage = storage_at("http://store.example:8080/");
    let url = storage.request_url(ObjectKind::Chunk, &hash_of(&[0xab, 0x01])).unwrap();
    assert_eq!(url.as_str(), "http://store.example:8080/chunk/ab01");
}

#[test]
fn the_path_replaces_the_path_of_the_base() {
    let storage = storage_at("https://store.example/some/where?x=1");
    let url = storage.request_url(ObjectKind::Tree, &hash_of(&[0x10])).unwrap();
    assert_eq!(url.as_str(), "https://store.example/tree/10");
}

#[test]
fn a_base_that_cannot_be_a_base_gives_a_parse_error() {
    let storage = storage_at("mailto:someone@store.example");
    match storage.request_url(ObjectKind::Chunk, &hash_of(&[1])) {
        Err(StorageReadError::Other(HttpStorageError::UrlParse(cause))) => {
            assert_eq!(cause, url::ParseError::RelativeUrlWithCannotBeABaseBase)
        },
        other => panic!("unexpected target {:?}", other),
    }
}

#[test]
fn storage_keeps_what_it_was_made_with() {
    let storage = storage_at("http://store.example/base/");
    assert_eq!(storage.url().as_str(), "http://store.example/base/");
    let request = storage.client().get(storage.url().clone()).build().unwrap();
    assert_eq!(request.url().as_str(), "http://store.example/base/");
}
