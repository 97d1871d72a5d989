//! A store reached over HTTP.
//!
//! Every read is one `GET` of `/<kind>/<hash in lowercase hex>` under the
//! store's base address. Status 200 answers with the object's bytes, status
//! 204 says that the store holds no such object, and any other status is an
//! error that carries the status. Nothing is retried, and nothing is checked
//! against the hash here: that is [`Context::certify`]'s part.
//!
//! This module decides; it does not talk to the network. It says which
//! address to ask ([`HttpStorage::request_url`]) and what each thing that can
//! come back means ([`on_status`], [`on_body`], [`on_failure`]). Whoever owns
//! the connection sends the request and reports what happened.
//!
//! [`Context::certify`]: crate::storage::Context::certify

use crate::hex::{hex_text, push_hex};
use crate::storage::{ObjectKind, StorageReadError};
use bytes::Bytes;
use reqwest::{Client, Url};
use url::ParseError;
use vstd::prelude::*;
use vstd::string::StringExecFns;

verus! {

/// `reqwest::Client`: the transport, carried and never used here.
#[verifier::external_type_specification]
#[verifier::external_body]
pub struct ExClient(reqwest::Client);

/// `reqwest::Error`: what the transport reports when it fails, carried as it
/// came.
#[verifier::external_type_specification]
#[verifier::external_body]
pub struct ExTransportError(reqwest::Error);

/// `url::Url`: a parsed address, opaque to the verifier.
#[verifier::external_type_specification]
#[verifier::external_body]
pub struct ExUrl(url::Url);

/// `url::ParseError`: why an address could not be formed, carried as it came.
#[verifier::external_type_specification]
#[verifier::external_body]
pub struct ExParseError(url::ParseError);

/// What `Url::join` makes of `reference` when it is resolved against `base`:
/// the address referred to, or the reason why there is none.
pub uninterp spec fn url_join(base: Url, reference: Seq<char>) -> Result<Url, ParseError>;

/// `Url::join`: parses `reference` with `base` as the base address. The
/// outcome depends on the two alone; which outcome it is, is not stated.
#[verifier::external_body]
fn join_url(base: &Url, reference: &str) -> (joined: Result<Url, ParseError>)
    ensures
        joined == url_join(*base, reference@),
{
    base.join(reference)
}

/// The status that answers with the object's bytes.
pub const STATUS_OK: u16 = 200;

/// The status that says the store holds no such object.
pub const STATUS_NO_CONTENT: u16 = 204;

/// Why a read over HTTP failed.
#[derive(Debug)]
pub enum HttpStorageError {
    /// The request could not be sent, or the response could not be read.
    Reqwest(reqwest::Error),
    /// The object's address could not be formed from the base address.
    UrlParse(ParseError),
    /// The store answered with a status that is neither 200 nor 204.
    Response(u16),
}

/// What a read comes to: the object's bytes, no such object, or an error.
pub type HttpRead = Result<Option<Bytes>, StorageReadError<HttpStorageError>>;

/// What to do once the response's status is known.
#[derive(Debug)]
pub enum NextStep {
    /// The object was found: read the response's body.
    ReadBody,
    /// The read is over, with this result.
    Done(HttpRead),
}

/// The path of an object: `/`, the kind's name, `/`, the hash in lowercase
/// hexadecimal.
pub open spec fn object_path(kind: ObjectKind, hash: Seq<u8>) -> Seq<char> {
    "/"@ + kind.spec_name() + "/"@ + hex_text(hash)
}

/// What a response's status means: status 200 calls for the body; status
/// 204 ends the read with "no such object"; any other status ends it with an
/// error that carries the status.
pub open spec fn after_status(status: u16) -> NextStep {
    if status == STATUS_OK {
        NextStep::ReadBody
    } else if status == STATUS_NO_CONTENT {
        NextStep::Done(Ok(None))
    } else {
        NextStep::Done(Err(StorageReadError::Other(HttpStorageError::Response(status))))
    }
}

/// The path of the object of kind `kind` that `hash` names.
pub fn request_path(kind: ObjectKind, hash: &crate::hash::Hash) -> (path: String)
    ensures
        path@ == object_path(kind, hash@),
{
    let mut path = String::new();
    path.append("/");
    path.append(kind.name());
    path.append("/");
    push_hex(&mut path, hash.as_slice());
    assert(path@ =~= object_path(kind, hash@));
    path
}

/// Decides on a response by its status.
pub fn on_status(status: u16) -> (step: NextStep)
    ensures
        step == after_status(status),
{
    if status == STATUS_OK {
        NextStep::ReadBody
    } else if status == STATUS_NO_CONTENT {
        NextStep::Done(Ok(None))
    } else {
        NextStep::Done(Err(StorageReadError::Other(HttpStorageError::Response(status))))
    }
}

/// Ends a read whose response had status 200: the body is the object.
pub fn on_body(body: Bytes) -> (outcome: HttpRead)
    ensures
        outcome == Ok::<Option<Bytes>, StorageReadError<HttpStorageError>>(Some(body)),
{
    Ok(Some(body))
}

/// Ends a read that the transport failed, whether the request could not be
/// sent or the body could not be read: the result is the transport's error,
/// carried as it came.
pub fn on_failure(cause: reqwest::Error) -> (outcome: HttpRead)
    ensures
        outcome == Err::<Option<Bytes>, StorageReadError<HttpStorageError>>(
            StorageReadError::Other(HttpStorageError::Reqwest(cause)),
        ),
{
    Err(StorageReadError::Other(HttpStorageError::Reqwest(cause)))
}

/// A store reached over HTTP: the client to send requests with and the base
/// address to send them to. Both are made elsewhere and handed in.
pub struct HttpStorage {
    client: Client,
    url: Url,
}

impl HttpStorage {
    /// The client requests are sent with.
    pub closed spec fn spec_client(&self) -> Client {
        self.client
    }

    /// The base address.
    pub closed spec fn spec_url(&self) -> Url {
        self.url
    }

    /// The address a read of `hash` under `kind` asks, or the error the read
    /// ends with when the base address admits no such address.
    pub open spec fn address(&self, kind: ObjectKind, hash: Seq<u8>) -> Result<
        Url,
        StorageReadError<HttpStorageError>,
    > {
        match url_join(self.spec_url(), object_path(kind, hash)) {
            Ok(url) => Ok(url),
            Err(cause) => Err(StorageReadError::Other(HttpStorageError::UrlParse(cause))),
        }
    }

    /// A store at `url`, asked through `client`.
    pub fn new(client: Client, url: Url) -> (storage: HttpStorage)
        ensures
            storage.spec_client() == client,
            storage.spec_url() == url,
    {
        HttpStorage { client, url }
    }

    /// The client requests are sent with.
    pub fn client(&self) -> (client: &Client)
        ensures
            *client == self.spec_client(),
    {
        &self.client
    }

    /// The base address.
    pub fn url(&self) -> (url: &Url)
        ensures
            *url == self.spec_url(),
    {
        &self.url
    }

    /// Starts a read: the one address to send a `GET` to, or the result of
    /// the read if there is no such address.
    pub fn request_url(&self, kind: ObjectKind, hash: &crate::hash::Hash) -> (target: Result<
        Url,
        StorageReadError<HttpStorageError>,
    >)
        ensures
            target == self.address(kind, hash@),
    {
        let path = request_path(kind, hash);
        match join_url(&self.url, path.as_str()) {
            Ok(url) => Ok(url),
            Err(cause) => Err(StorageReadError::Other(HttpStorageError::UrlParse(cause))),
        }
    }
}

} // verus!
