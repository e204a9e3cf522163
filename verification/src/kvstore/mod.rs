//! Key-value store abstraction shared by the identity services.

use vstd::prelude::*;

pub mod etcd;
pub mod memstore;

use self::etcd::EtcdFailure;
use crate::rpc::{capnp_failed, capnp_overloaded, rpc_failed, rpc_overloaded};

verus! {

/// How a caller should react to an [`Error`].
#[derive(Debug, Clone, Copy, PartialEq, Eq, Structural)]
pub enum ErrorKind {
    /// It is reasonable to retry, after some backoff.
    Retryable,
    /// Permanent error - retrying the same operation is unlikely to be useful.
    Permanent,
}

/// What lies beneath an [`Error`].
#[derive(Debug, Clone, PartialEq, Eq)]
pub enum Cause {
    /// The key that was looked up holds no value.
    NotFound { key: String },
    /// The etcd client reported a failure.
    Etcd(EtcdFailure),
}

/// Error of every store operation.
#[derive(Debug, Clone, PartialEq, Eq)]
pub struct Error {
    pub kind: ErrorKind,
    pub description: String,
    pub cause: Option<Cause>,
}

pub type Result<T> = core::result::Result<T, Error>;

/// The text shown for a missing key.
pub open spec fn not_found_text(key: Seq<char>) -> Seq<char> {
    "Key \""@ + key + "\" not found"@
}

impl Cause {
    /// The text of the cause, as shown after the error's description.
    pub open spec fn text(&self) -> Seq<char> {
        match self {
            Cause::NotFound { key } => not_found_text(key@),
            Cause::Etcd(failure) => failure.message@,
        }
    }

    pub fn message(&self) -> (text: String)
        ensures
            text@ == self.text(),
    {
        match self {
            Cause::NotFound { key } => {
                let mut text = "Key \"".to_owned();
                text.append(key.as_str());
                text.append("\" not found");
                text
            },
            Cause::Etcd(failure) => failure.message.clone(),
        }
    }
}

impl Error {
    /// The full text of the error: its description, followed by the text of
    /// its cause where it has one.
    pub open spec fn text(&self) -> Seq<char> {
        match self.cause {
            None => self.description@,
            Some(cause) => self.description@ + ": "@ + cause.text(),
        }
    }

    /// The displayed form of the error.
    pub fn message(&self) -> (text: String)
        ensures
            text@ == self.text(),
    {
        match &self.cause {
            None => self.description.clone(),
            Some(cause) => {
                let mut text = self.description.clone();
                text.append(": ");
                let rest = cause.message();
                text.append(rest.as_str());
                text
            },
        }
    }

    pub fn description(&self) -> (text: &str)
        ensures
            text@ == self.description@,
    {
        self.description.as_str()
    }

    pub fn cause(&self) -> (cause: Option<&Cause>)
        ensures
            cause is Some == self.cause is Some,
            cause is Some ==> *cause->0 == self.cause->0,
    {
        match &self.cause {
            Some(c) => Some(c),
            None => None,
        }
    }
}

/// Builds a permanent error with the given description and no cause.
pub fn permanent(desc: String) -> (err: Error)
    ensures
        err.kind == ErrorKind::Permanent,
        err.description == desc,
        err.cause is None,
{
    Error { kind: ErrorKind::Permanent, description: desc, cause: None }
}


/// The RPC error that a store error becomes: an overloaded one where a retry
/// may help, a failed one otherwise, with the store error's description.
pub open spec fn capnp_error_of(e: Error) -> capnp::Error {
    match e.kind {
        ErrorKind::Retryable => capnp_overloaded(e.description@),
        ErrorKind::Permanent => capnp_failed(e.description@),
    }
}

impl Error {
    /// The RPC error for this store error.
    pub fn into_capnp(self) -> (e: capnp::Error)
        ensures
            e == capnp_error_of(self),
    {
        match self.kind {
            ErrorKind::Retryable => rpc_overloaded(self.description),
            ErrorKind::Permanent => rpc_failed(self.description),
        }
    }
}

/// A store of byte values under string keys, each value carrying a sequencer
/// that tells its versions apart.
///
/// Each operation is described by a relation that the implementation chooses.
/// By default the relation admits every outcome, as it must for a store that
/// talks to a remote service; an in-memory store pins its results down
/// exactly.
pub trait KvStore: Sized {
    type Sequencer: Eq;

    /// The outcomes that `get` may have on this store for `key`.
    open spec fn get_ensures(&self, key: Seq<char>, result: Result<(Self::Sequencer, Vec<u8>)>) -> bool {
        true
    }

    /// The outcomes that `set` may have, relating the store before and after.
    open spec fn set_ensures(
        &self,
        after: &Self,
        key: Seq<char>,
        value: Seq<u8>,
        current_seq: Option<Self::Sequencer>,
        result: Result<Self::Sequencer>,
    ) -> bool {
        true
    }

    /// The outcomes that `delete` may have, relating the store before and after.
    open spec fn delete_ensures(
        &self,
        after: &Self,
        key: Seq<char>,
        current_seq: Option<Self::Sequencer>,
        result: Result<()>,
    ) -> bool {
        true
    }

    fn get(&self, key: &str) -> (result: Result<(Self::Sequencer, Vec<u8>)>)
        ensures
            self.get_ensures(key@, result),
    ;

    fn set(&mut self, key: &str, value: &[u8], current_seq: Option<Self::Sequencer>) -> (result:
        Result<Self::Sequencer>)
        ensures
            old(self).set_ensures(final(self), key@, value@, current_seq, result),
    ;

    fn delete(&mut self, key: &str, current_seq: Option<Self::Sequencer>) -> (result: Result<()>)
        ensures
            old(self).delete_ensures(final(self), key@, current_seq, result),
    ;
}

/// What reading `key` from `store` and handing the sequencer and bytes to
/// `then` may give: some outcome of the read, where a failed read becomes the
/// matching RPC error and a successful one gives what `then` returns.
pub open spec fn read_outcome<K: KvStore, R, F: FnOnce(K::Sequencer, Vec<u8>) -> core::result::Result<R, capnp::Error>>(
    store: &K,
    key: Seq<char>,
    then: F,
    result: core::result::Result<R, capnp::Error>,
) -> bool {
    exists|raw: Result<(K::Sequencer, Vec<u8>)>|
        #[trigger] store.get_ensures(key, raw) && match raw {
            Err(e) => result == Err::<R, capnp::Error>(capnp_error_of(e)),
            Ok((seq, bytes)) => call_ensures(then, (seq, bytes), result),
        }
}

/// The entry of a [`KvStore`] of type `K` under one key.
pub struct KvEntry<K: KvStore> {
    key: String,
    store: core::marker::PhantomData<K>,
}

impl<K: KvStore> View for KvEntry<K> {
    type V = Seq<char>;

    /// The key of the entry.
    closed spec fn view(&self) -> Seq<char> {
        self.key@
    }
}

impl<K: KvStore> KvEntry<K> {
    pub fn new(key: String) -> (entry: Self)
        ensures
            entry@ == key@,
    {
        KvEntry { key, store: core::marker::PhantomData }
    }

    pub fn key(&self) -> (key: &str)
        ensures
            key@ == self@,
    {
        self.key.as_str()
    }

    /// Reads the value stored under this entry's key.
    pub fn get_raw(&self, store: &K) -> (result: Result<(K::Sequencer, Vec<u8>)>)
        ensures
            store.get_ensures(self@, result),
    {
        store.get(self.key.as_str())
    }

    /// Reads the value stored under this entry's key and hands its sequencer
    /// and bytes to `then`; a failed read becomes the matching RPC error.
    pub fn get_then<R, F>(&self, store: &K, then: F) -> (result: core::result::Result<R, capnp::Error>)
        where
            F: FnOnce(K::Sequencer, Vec<u8>) -> core::result::Result<R, capnp::Error>,
        requires
            forall|seq: K::Sequencer, bytes: Vec<u8>| then.requires((seq, bytes)),
        ensures
            read_outcome(store, self@, then, result),
    {
        let raw = self.get_raw(store);
        match raw {
            Err(e) => {
                proof {
                    assert(store.get_ensures(self@, Err(e)));
                }
                Err(e.into_capnp())
            },
            Ok((seq, bytes)) => {
                proof {
                    assert(store.get_ensures(self@, Ok((seq, bytes))));
                }
                then(seq, bytes)
            },
        }
    }

    /// Writes `value` under this entry's key.
    pub fn set_raw(&self, store: &mut K, value: &[u8], current_seq: Option<K::Sequencer>) -> (result:
        Result<K::Sequencer>)
        ensures
            old(store).set_ensures(final(store), self@, value@, current_seq, result),
    {
        store.set(self.key.as_str(), value, current_seq)
    }
}

} // verus!
