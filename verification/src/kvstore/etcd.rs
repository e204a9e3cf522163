//! Codec between the key-value store interface and the etcd v2 API: what is
//! sent for a write, and what a reply of the etcd client means for the store.

use vstd::prelude::*;

use rustc_serialize::base64::{FromBase64, FromBase64Error, ToBase64, STANDARD};

use super::{Cause, Error, ErrorKind, Result};

verus! {

/// A failure reported by the etcd client: whether it happened in the
/// transport, and its displayed text.
#[derive(Debug, Clone, PartialEq, Eq)]
pub struct EtcdFailure {
    pub io: bool,
    pub message: String,
}

/// The part of an etcd node that the store reads.
#[derive(Debug, Clone, PartialEq, Eq)]
pub struct EtcdNode {
    /// The etcd modification index of the node.
    pub modified_index: Option<u64>,
    /// The value of the node.
    pub value: Option<String>,
}

/// A key that holds no value.
#[derive(PartialEq, Clone, Copy, Debug)]
pub struct NotFound<'a> {
    pub key: &'a str,
}

/// A store backed by an etcd cluster. It keeps the cluster's address; the
/// client that talks to the cluster is driven by the caller, which hands each
/// reply of the client to the methods below.
pub struct Etcd {
    root_url: String,
}

// ---------------------------------------------------------------------------
// base64, through rustc_serialize
// ---------------------------------------------------------------------------

/// The text that rustc_serialize's standard base64 encoder gives for `bytes`.
pub uninterp spec fn base64_text(bytes: Seq<u8>) -> Seq<char>;

/// The bytes that rustc_serialize's base64 decoder gives for `text`, or
/// `None` where it reports an error.
pub uninterp spec fn base64_bytes(text: Seq<char>) -> Option<Seq<u8>>;

/// Calls `rustc_serialize::base64::ToBase64::to_base64` on the bytes with the
/// `STANDARD` configuration. Trusted: the text is `base64_text` of the bytes,
/// and the decoder gives the bytes back from it (the crate's own tests check
/// this round trip).
#[verifier::external_body]
fn to_base64(bytes: &[u8]) -> (text: String)
    ensures
        text@ == base64_text(bytes@),
        base64_bytes(text@) == Some(bytes@),
{
    bytes.to_base64(STANDARD)
}

#[verifier::external_type_specification]
#[verifier::external_body]
pub struct ExFromBase64Error(FromBase64Error);

/// Calls `rustc_serialize::base64::FromBase64::from_base64` on the text.
/// Trusted: it succeeds exactly where `base64_bytes` of the text is some
/// bytes, and then gives those bytes.
#[verifier::external_body]
fn from_base64(text: &str) -> (bytes: core::result::Result<Vec<u8>, FromBase64Error>)
    ensures
        bytes is Ok == base64_bytes(text@) is Some,
        bytes matches Ok(v) ==> base64_bytes(text@) == Some(v@),
{
    text.from_base64()
}

// ---------------------------------------------------------------------------
// errors
// ---------------------------------------------------------------------------

/// The error that an etcd client failure becomes: retryable where it
/// happened in the transport, permanent otherwise.
pub open spec fn is_etcd_error(e: Error, failure: EtcdFailure) -> bool {
    &&& e.kind == (if failure.io {
        ErrorKind::Retryable
    } else {
        ErrorKind::Permanent
    })
    &&& e.description@ == (if failure.io {
        "IO error"@
    } else {
        "Etcd error"@
    })
    &&& e.cause == Some(Cause::Etcd(failure))
}

/// The error that a missing key becomes.
pub open spec fn is_not_found_error(e: Error, key: Seq<char>) -> bool {
    &&& e.kind == ErrorKind::Permanent
    &&& e.description@ == "Not found"@
    &&& e.cause matches Some(Cause::NotFound { key: k }) && k@ == key
}

/// The error of a reply whose node has no modification index.
pub open spec fn is_missing_index_error(e: Error) -> bool {
    &&& e.kind == ErrorKind::Permanent
    &&& e.description@ == "No modifiedIndex in get response"@
    &&& e.cause is None
}

/// The error of a reply whose value is not valid base64.
pub open spec fn is_bad_value_error(e: Error) -> bool {
    &&& e.kind == ErrorKind::Permanent
    &&& e.description@ == "Invalid base64 value in get response"@
    &&& e.cause is None
}

impl<'a> NotFound<'a> {
    pub fn description(&self) -> (text: &'static str)
        ensures
            text@ == "Not found"@,
    {
        "Not found"
    }

    /// The displayed form: the key in quotes, followed by "not found".
    pub fn message(&self) -> (text: String)
        ensures
            text@ == super::not_found_text(self.key@),
    {
        let mut text = "Key \"".to_owned();
        text.append(self.key);
        text.append("\" not found");
        text
    }
}

impl Error {
    /// The error for a key that holds no value.
    pub fn from_not_found(err: NotFound) -> (e: Error)
        ensures
            is_not_found_error(e, err.key@),
    {
        Error {
            kind: ErrorKind::Permanent,
            description: "Not found".to_owned(),
            cause: Some(Cause::NotFound { key: err.key.to_owned() }),
        }
    }

    /// The error for a failure of the etcd client.
    pub fn from_etcd(failure: EtcdFailure) -> (e: Error)
        ensures
            is_etcd_error(e, failure),
    {
        if failure.io {
            Error {
                kind: ErrorKind::Retryable,
                description: "IO error".to_owned(),
                cause: Some(Cause::Etcd(failure)),
            }
        } else {
            Error {
                kind: ErrorKind::Permanent,
                description: "Etcd error".to_owned(),
                cause: Some(Cause::Etcd(failure)),
            }
        }
    }
}

// ---------------------------------------------------------------------------
// replies
// ---------------------------------------------------------------------------

/// The sequencer of a node: its modification index.
fn fetch_seq(node: &EtcdNode) -> (seq: Result<u64>)
    ensures
        match node.modified_index {
            Some(i) => seq == Ok::<u64, Error>(i),
            None => seq matches Err(e) && is_missing_index_error(e),
        },
{
    match node.modified_index {
        Some(i) => Ok(i),
        None => Err(
            Error {
                kind: ErrorKind::Permanent,
                description: "No modifiedIndex in get response".to_owned(),
                cause: None,
            },
        ),
    }
}

/// What a read of `key` gives, given the reply of the etcd client.
pub open spec fn get_outcome(
    key: Seq<char>,
    reply: core::result::Result<EtcdNode, EtcdFailure>,
    result: Result<(u64, Vec<u8>)>,
) -> bool {
    match reply {
        Err(failure) => result matches Err(e) && is_etcd_error(e, failure),
        Ok(node) => match node.modified_index {
            None => result matches Err(e) && is_missing_index_error(e),
            Some(seq) => match node.value {
                None => result matches Err(e) && is_not_found_error(e, key),
                Some(text) => match base64_bytes(text@) {
                    None => result matches Err(e) && is_bad_value_error(e),
                    Some(bytes) => result matches Ok((s, v)) && s == seq && v@ == bytes,
                },
            },
        },
    }
}

/// What a write gives, given the reply of the etcd client.
pub open spec fn set_outcome(
    reply: core::result::Result<EtcdNode, EtcdFailure>,
    result: Result<u64>,
) -> bool {
    match reply {
        Err(failure) => result matches Err(e) && is_etcd_error(e, failure),
        Ok(node) => match node.modified_index {
            None => result matches Err(e) && is_missing_index_error(e),
            Some(seq) => result == Ok::<u64, Error>(seq),
        },
    }
}

impl View for Etcd {
    type V = Seq<char>;

    /// The address of the cluster.
    closed spec fn view(&self) -> Seq<char> {
        self.root_url@
    }
}

impl Etcd {
    /// The store for the cluster at `root_url`, once the client has been
    /// created and the cluster has answered (`handshake`).
    pub fn new(root_url: &str, handshake: core::result::Result<(), EtcdFailure>) -> (store: Result<
        Etcd,
    >)
        ensures
            match handshake {
                Ok(()) => store matches Ok(s) && s@ == root_url@,
                Err(failure) => store matches Err(e) && is_etcd_error(e, failure),
            },
    {
        match handshake {
            Ok(()) => Ok(Etcd { root_url: root_url.to_owned() }),
            Err(failure) => Err(Error::from_etcd(failure)),
        }
    }

    pub fn root_url(&self) -> (url: &str)
        ensures
            url@ == self@,
    {
        self.root_url.as_str()
    }

    /// The text stored in etcd for `value`: its base64 encoding.
    pub fn encode_value(value: &[u8]) -> (text: String)
        ensures
            text@ == base64_text(value@),
            base64_bytes(text@) == Some(value@),
    {
        to_base64(value)
    }

    /// The result of reading `key`, given the reply of the client to a get of
    /// `key`: the node's modification index and its decoded value.
    pub fn get(&self, key: &str, reply: core::result::Result<EtcdNode, EtcdFailure>) -> (result:
        Result<(u64, Vec<u8>)>)
        ensures
            get_outcome(key@, reply, result),
    {
        match reply {
            Err(failure) => Err(Error::from_etcd(failure)),
            Ok(node) => {
                let seq = match fetch_seq(&node) {
                    Ok(s) => s,
                    Err(e) => {
                        return Err(e);
                    },
                };
                match &node.value {
                    None => Err(Error::from_not_found(NotFound { key })),
                    Some(text) => match from_base64(text.as_str()) {
                        Ok(bytes) => Ok((seq, bytes)),
                        Err(_) => Err(
                            Error {
                                kind: ErrorKind::Permanent,
                                description: "Invalid base64 value in get response".to_owned(),
                                cause: None,
                            },
                        ),
                    },
                }
            },
        }
    }

    /// The result of writing, given the reply of the client to a set of the
    /// encoded value: the node's new modification index.
    pub fn set(&self, reply: core::result::Result<EtcdNode, EtcdFailure>) -> (result: Result<u64>)
        ensures
            set_outcome(reply, result),
    {
        match reply {
            Err(failure) => Err(Error::from_etcd(failure)),
            Ok(node) => fetch_seq(&node),
        }
    }

    /// The result of deleting, given the reply of the client to a delete.
    pub fn delete(&self, reply: core::result::Result<(), EtcdFailure>) -> (result: Result<()>)
        ensures
            match reply {
                Ok(()) => result is Ok,
                Err(failure) => result matches Err(e) && is_etcd_error(e, failure),
            },
    {
        match reply {
            Ok(()) => Ok(()),
            Err(failure) => Err(Error::from_etcd(failure)),
        }
    }
}

/// A value written through the codec reads back unchanged: a node whose
/// value is text that decodes to `bytes` (as the text of `Etcd::encode_value`
/// does) reads as its modification index and `bytes`.
pub proof fn lemma_written_value_reads_back(
    key: Seq<char>,
    seq: u64,
    text: String,
    bytes: Seq<u8>,
    result: Result<(u64, Vec<u8>)>,
)
    requires
        base64_bytes(text@) == Some(bytes),
        get_outcome(key, Ok(EtcdNode { modified_index: Some(seq), value: Some(text) }), result),
    ensures
        result matches Ok((s, v)) && s == seq && v@ == bytes,
{
}

/// Only failures in the transport are worth retrying: an etcd failure gives
/// a retryable error exactly when it happened in the transport.
pub proof fn lemma_retryable_iff_transport(e: Error, failure: EtcdFailure)
    requires
        is_etcd_error(e, failure),
    ensures
        (e.kind == ErrorKind::Retryable) == failure.io,
{
}

/// A read never succeeds on a failed client call: the failure becomes an
/// error that carries it, retryable exactly where it happened in the
/// transport.
pub proof fn lemma_failed_read_is_error(
    key: Seq<char>,
    failure: EtcdFailure,
    result: Result<(u64, Vec<u8>)>,
)
    requires
        get_outcome(key, Err(failure), result),
    ensures
        result matches Err(e) && e.cause == Some(Cause::Etcd(failure)) && (e.kind
            == ErrorKind::Retryable) == failure.io,
{
}

/// A read succeeds only on a node that has a modification index and a value
/// that decodes, and then gives that index and the decoded bytes.
pub proof fn lemma_read_success_comes_from_node(
    key: Seq<char>,
    reply: core::result::Result<EtcdNode, EtcdFailure>,
    result: Result<(u64, Vec<u8>)>,
)
    requires
        get_outcome(key, reply, result),
        result is Ok,
    ensures
        ({
            &&& result matches Ok((seq, bytes))
            &&& reply matches Ok(node)
            &&& node.modified_index == Some(seq)
            &&& node.value matches Some(text)
            &&& base64_bytes(text@) == Some(bytes@)
        }),
{
}

/// A write succeeds only on a node that has a modification index, and then
/// gives that index; a failed client call is an error that carries the
/// failure, retryable exactly where it happened in the transport.
pub proof fn lemma_write_success_comes_from_node(
    reply: core::result::Result<EtcdNode, EtcdFailure>,
    result: Result<u64>,
)
    requires
        set_outcome(reply, result),
    ensures
        result matches Ok(seq) ==> ({
            &&& reply matches Ok(node)
            &&& node.modified_index == Some(seq)
        }),
        reply matches Err(failure) ==> result matches Err(e) && e.cause == Some(
            Cause::Etcd(failure),
        ) && (e.kind == ErrorKind::Retryable) == failure.io,
{
}

} // verus!
