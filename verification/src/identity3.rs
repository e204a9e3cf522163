//! The identity service: domains, their users, and password authentication.
//!
//! Domains live under `v1/domains/<name>` in the store, and the users of a
//! domain under `<domain key>/users/<name>`. The stored records are Cap'n
//! Proto messages; the caller decodes them and hands the decoded details to
//! the checks below.

use vstd::prelude::*;

use crate::kvstore::{read_outcome, KvEntry, KvStore};
use crate::rpc::{capnp_failed, capnp_unimplemented, rpc_failed, rpc_unimplemented};

verus! {

/// The details stored for a domain.
#[derive(Debug, Clone, PartialEq, Eq)]
pub struct DomainDetails {
    pub name: String,
    pub description: String,
    pub enabled: bool,
}

/// The details stored for a user.
#[derive(Debug, Clone, PartialEq, Eq)]
pub struct UserDetails {
    pub password: String,
    pub enabled: bool,
}

/// A password authentication request.
#[derive(Debug, Clone, PartialEq, Eq)]
pub struct PasswordRequest {
    pub domain: String,
    pub user: String,
    pub password: String,
}

/// How a client asks to authenticate.
#[derive(Debug, Clone, PartialEq, Eq)]
pub enum AuthMethod {
    Password(PasswordRequest),
    Token,
}

/// The key of the domain called `name`.
pub open spec fn domain_key(name: Seq<char>) -> Seq<char> {
    "v1/domains/"@ + name
}

/// The key of the user called `name` in the domain stored under `domain`.
pub open spec fn user_key(domain: Seq<char>, name: Seq<char>) -> Seq<char> {
    domain + "/users/"@ + name
}

/// What the domain part of an authentication gives: the failure of reading
/// it, a refusal where the domain is disabled, and success otherwise.
pub open spec fn domain_verdict(domain: Result<DomainDetails, capnp::Error>) -> Result<(), capnp::Error> {
    match domain {
        Err(e) => Err(e),
        Ok(details) => if !details.enabled {
            Err(capnp_failed("Domain disabled"@))
        } else {
            Ok(())
        },
    }
}

/// What the user part of an authentication gives: the failure of reading
/// it, a refusal where the password differs or the user is disabled (in that
/// order), and success otherwise.
pub open spec fn user_verdict(user: Result<UserDetails, capnp::Error>, password: Seq<char>) -> Result<
    (),
    capnp::Error,
> {
    match user {
        Err(e) => Err(e),
        Ok(details) => if details.password@ != password {
            Err(capnp_failed("Password incorrect"@))
        } else if !details.enabled {
            Err(capnp_failed("User disabled"@))
        } else {
            Ok(())
        },
    }
}

/// The verdict on a password authentication: the domain's refusal comes
/// first, then the user's.
pub open spec fn password_verdict(
    domain: Result<DomainDetails, capnp::Error>,
    user: Result<UserDetails, capnp::Error>,
    password: Seq<char>,
) -> Result<(), capnp::Error> {
    match domain_verdict(domain) {
        Err(e) => Err(e),
        Ok(()) => user_verdict(user, password),
    }
}

/// The check made of a domain's details.
pub fn check_domain(details: &DomainDetails) -> (verdict: Result<(), capnp::Error>)
    ensures
        verdict == domain_verdict(Ok(*details)),
{
    if !details.enabled {
        return Err(rpc_failed("Domain disabled".to_owned()));
    }
    Ok(())
}

/// The check made of a user's details against the password given.
pub fn check_user(details: &UserDetails, password: &str) -> (verdict: Result<(), capnp::Error>)
    ensures
        verdict == user_verdict(Ok(*details), password@),
{
    let given = password.to_owned();
    if details.password != given {
        return Err(rpc_failed("Password incorrect".to_owned()));
    }
    if !details.enabled {
        return Err(rpc_failed("User disabled".to_owned()));
    }
    Ok(())
}

/// A domain, reached through its entry in the store.
pub struct DomainImpl<K: KvStore> {
    store: KvEntry<K>,
}

/// A user, reached through its entry in the store.
pub struct UserImpl<K: KvStore> {
    store: KvEntry<K>,
}

/// The authentication service over a store of domains and users.
pub struct AuthImpl<K: KvStore> {
    store: K,
}

impl<K: KvStore> View for DomainImpl<K> {
    type V = Seq<char>;

    /// The key of the domain's entry.
    closed spec fn view(&self) -> Seq<char> {
        self.store@
    }
}

impl<K: KvStore> View for UserImpl<K> {
    type V = Seq<char>;

    /// The key of the user's entry.
    closed spec fn view(&self) -> Seq<char> {
        self.store@
    }
}

impl<K: KvStore> DomainImpl<K> {
    pub fn new(store: KvEntry<K>) -> (domain: Self)
        ensures
            domain@ == store@,
    {
        DomainImpl { store }
    }

    pub fn entry(&self) -> (entry: &KvEntry<K>)
        ensures
            entry@ == self@,
    {
        &self.store
    }

    /// The user called `name` in this domain.
    pub fn get_user(&self, name: &str) -> (user: UserImpl<K>)
        ensures
            user@ == user_key(self@, name@),
    {
        let mut key = self.store.key().to_owned();
        key.append("/users/");
        key.append(name);
        let entry = KvEntry::new(key);
        UserImpl::new(entry)
    }

    /// Reads the domain's details from `store`, decoding the stored bytes
    /// with `decode`.
    pub fn details<F>(&self, store: &K, decode: F) -> (details: Result<DomainDetails, capnp::Error>)
        where
            F: FnOnce(K::Sequencer, Vec<u8>) -> Result<DomainDetails, capnp::Error>,
        requires
            forall|seq: K::Sequencer, bytes: Vec<u8>| decode.requires((seq, bytes)),
        ensures
            read_outcome(store, self@, decode, details),
    {
        self.store.get_then(store, decode)
    }
}

impl<K: KvStore> UserImpl<K> {
    pub fn new(store: KvEntry<K>) -> (user: Self)
        ensures
            user@ == store@,
    {
        UserImpl { store }
    }

    pub fn entry(&self) -> (entry: &KvEntry<K>)
        ensures
            entry@ == self@,
    {
        &self.store
    }
}

impl<K: KvStore> AuthImpl<K> {
    pub fn new(store: K) -> (auth: Self)
        ensures
            auth.backing() == store,
    {
        AuthImpl { store }
    }

    /// The store of domains and users.
    pub closed spec fn backing(&self) -> K {
        self.store
    }

    pub fn store(&self) -> (store: &K)
        ensures
            *store == self.backing(),
    {
        &self.store
    }

    /// The domain called `name`.
    pub fn get_domain(&self, name: &str) -> (domain: DomainImpl<K>)
        ensures
            domain@ == domain_key(name@),
    {
        let mut key = "v1/domains/".to_owned();
        key.append(name);
        let entry = KvEntry::new(key);
        DomainImpl::new(entry)
    }

    /// Authenticates a client. A password request reads the domain and the
    /// user from the store, decoding them with `decode_domain` and
    /// `decode_user`, and gives the user where both checks pass; token
    /// requests are not supported.
    pub fn auth<D, U>(&self, method: &AuthMethod, decode_domain: D, decode_user: U) -> (result:
        Result<UserImpl<K>, capnp::Error>)
        where
            D: FnOnce(K::Sequencer, Vec<u8>) -> Result<DomainDetails, capnp::Error>,
            U: FnOnce(K::Sequencer, Vec<u8>) -> Result<UserDetails, capnp::Error>,
        requires
            forall|seq: K::Sequencer, bytes: Vec<u8>| decode_domain.requires((seq, bytes)),
            forall|seq: K::Sequencer, bytes: Vec<u8>| decode_user.requires((seq, bytes)),
        ensures
            match method {
                AuthMethod::Token => result == Err::<UserImpl<K>, capnp::Error>(
                    capnp_unimplemented("token unsupported"@),
                ),
                AuthMethod::Password(req) => exists|
                    domain: Result<DomainDetails, capnp::Error>,
                    user: Result<UserDetails, capnp::Error>,
                |
                    {
                        &&& #[trigger] read_outcome(
                            &self.backing(),
                            domain_key(req.domain@),
                            decode_domain,
                            domain,
                        )
                        &&& #[trigger] read_outcome(
                            &self.backing(),
                            user_key(domain_key(req.domain@), req.user@),
                            decode_user,
                            user,
                        )
                        &&& match password_verdict(domain, user, req.password@) {
                            Ok(()) => result matches Ok(u) && u@ == user_key(
                                domain_key(req.domain@),
                                req.user@,
                            ),
                            Err(e) => result matches Err(r) && r == e,
                        }
                    },
            },
    {
        match method {
            AuthMethod::Token => Err(rpc_unimplemented("token unsupported".to_owned())),
            AuthMethod::Password(req) => {
                let domain = self.get_domain(req.domain.as_str());
                let domain_read = domain.details(&self.store, decode_domain);
                let ghost domain_seen = domain_read;
                let domain_check = match domain_read {
                    Err(e) => Err(e),
                    Ok(details) => check_domain(&details),
                };
                let user = domain.get_user(req.user.as_str());
                let user_read = user.store.get_then(&self.store, decode_user);
                let ghost user_seen = user_read;
                let user_check = match user_read {
                    Err(e) => Err(e),
                    Ok(details) => check_user(&details, req.password.as_str()),
                };
                proof {
                    // The two reads are the witnesses of the postcondition.
                    assert(read_outcome(
                        &self.backing(),
                        domain_key(req.domain@),
                        decode_domain,
                        domain_seen,
                    ));
                    assert(read_outcome(
                        &self.backing(),
                        user_key(domain_key(req.domain@), req.user@),
                        decode_user,
                        user_seen,
                    ));
                }
                match (domain_check, user_check) {
                    (Err(e), _) => Err(e),
                    (Ok(()), Err(e)) => Err(e),
                    (Ok(()), Ok(())) => Ok(user),
                }
            },
        }
    }
}

/// A password authentication passes exactly when the domain was read and is
/// enabled, and the user was read, has the given password and is enabled.
pub proof fn lemma_password_verdict_passes_iff(
    domain: Result<DomainDetails, capnp::Error>,
    user: Result<UserDetails, capnp::Error>,
    password: Seq<char>,
)
    ensures
        password_verdict(domain, user, password) is Ok <==> {
            &&& domain matches Ok(d) && d.enabled
            &&& user matches Ok(u) && u.password@ == password && u.enabled
        },
{
}

/// The users of a domain are stored under the domain's key.
pub proof fn lemma_users_live_under_their_domain(domain: Seq<char>, user: Seq<char>)
    ensures
        user_key(domain_key(domain), user).subrange(0, domain_key(domain).len() as int)
            == domain_key(domain),
{
    assert(user_key(domain_key(domain), user).subrange(0, domain_key(domain).len() as int)
        =~= domain_key(domain));
}

/// A user's key is the domain's key, then "/users/", then the whole user
/// name: it is exactly seven characters longer than the two together, starts
/// with the domain's key, ends with the name, and two names in one domain
/// share a key only when they are the same name.
pub proof fn lemma_user_key_holds_whole_name(domain: Seq<char>, name: Seq<char>, other: Seq<char>)
    ensures
        user_key(domain, name).len() == domain.len() + 7 + name.len(),
        user_key(domain, name).subrange(0, domain.len() as int) == domain,
        user_key(domain, name).subrange(domain.len() + 7int, user_key(domain, name).len() as int)
            == name,
        user_key(domain, name) == user_key(domain, other) ==> name == other,
{
    reveal_strlit("/users/");
    let k = user_key(domain, name);
    assert(k.subrange(0, domain.len() as int) =~= domain);
    assert(k.subrange(domain.len() + 7int, k.len() as int) =~= name);
    let j = user_key(domain, other);
    assert(j.subrange(domain.len() + 7int, j.len() as int) =~= other);
}

/// A domain's key is "v1/domains/" followed by the whole name: it is exactly
/// eleven characters longer than the name, ends with the name, and distinct
/// names give distinct keys.
pub proof fn lemma_domain_key_holds_whole_name(name: Seq<char>, other: Seq<char>)
    ensures
        domain_key(name).len() == 11 + name.len(),
        domain_key(name).subrange(11, domain_key(name).len() as int) == name,
        domain_key(name) == domain_key(other) ==> name == other,
{
    reveal_strlit("v1/domains/");
    let k = domain_key(name);
    assert(k.subrange(11, k.len() as int) =~= name);
    let j = domain_key(other);
    assert(j.subrange(11, j.len() as int) =~= other);
}

} // verus!
