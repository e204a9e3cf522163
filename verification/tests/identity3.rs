use freestack::identity3::{
    check_domain, check_user, AuthImpl, AuthMethod, DomainDetails, DomainImpl, PasswordRequest,
    UserDetails, UserImpl,
};
use freestack::kvstore::memstore::MemStore;
use freestack::kvstore::{KvEntry, KvStore};

// Test encoding of the stored records: the first byte is the enabled flag,
// the rest of a user record is the password.
fn decode_domain(_seq: u64, bytes: Vec<u8>) -> Result<DomainDetails, capnp::Error> {
    match bytes.first() {
        Some(flag) => Ok(DomainDetails {
            name: String::new(),
            description: String::new(),
            enabled: *flag == 1,
        }),
        None => Err(capnp::Error::failed("empty domain record".to_owned())),
    }
}

fn decode_user(_seq: u64, bytes: Vec<u8>) -> Result<UserDetails, capnp::Error> {
    match bytes.split_first() {
        Some((flag, rest)) => Ok(UserDetails {
            password: String::from_utf8(rest.to_vec()).unwrap(),
            enabled: *flag == 1,
        }),
        None => Err(capnp::Error::failed("empty user record".to_owned())),
    }
}

fn user_record(enabled: bool, password: &str) -> Vec<u8> {
    let mut v = vec![if enabled { 1 } else { 0 }];
    v.extend_from_slice(password.as_bytes());
    v
}

fn service(domain_enabled: bool, user_enabled: bool, password: &str) -> AuthImpl<MemStore> {
    let mut store = MemStore::new();
    store.set("v1/domains/acme", &[if domain_enabled { 1 } else { 0 }], None).unwrap();
    store
        .set("v1/domains/acme/users/alice", &user_record(user_enabled, password), None)
        .unwrap();
    AuthImpl::new(store)
}

fn password(domain: &str, user: &str, password: &str) -> AuthMethod {
    AuthMethod::Password(PasswordRequest {
        domain: domain.to_owned(),
        user: user.to_owned(),
        password: password.to_owned(),
    })
}

#[test]
fn domain_and_user_keys() {
    let auth = service(true, true, "pw");
    let domain = auth.get_domain("acme");
    assert_eq!(domain.entry().key(), "v1/domains/acme");
    let user = domain.get_user("alice");
    assert_eq!(user.entry().key(), "v1/domains/acme/users/alice");
}

#[test]
fn new_keeps_entries() {
    let d: DomainImpl<MemStore> = DomainImpl::new(KvEntry::new("x".to_owned()));
    assert_eq!(d.entry().key(), "x");
    let u: UserImpl<MemStore> = UserImpl::new(KvEntry::new("y".to_owned()));
    assert_eq!(u.entry().key(), "y");
}

#[test]
fn auth_passes_with_right_password() {
    let auth = service(true, true, "secret");
    let user = auth.auth(&password("acme", "alice", "secret"), decode_domain, decode_user);
    assert_eq!(user.unwrap().entry().key(), "v1/domains/acme/users/alice");
}

#[test]
fn auth_refuses_wrong_password() {
    let auth = service(true, true, "secret");
    let e = auth.auth(&password("acme", "alice", "guess"), decode_domain, decode_user).err().unwrap();
    assert_eq!(e.kind, capnp::ErrorKind::Failed);
    assert_eq!(e.extra, "Password incorrect");
}

#[test]
fn auth_refuses_disabled_user() {
    let auth = service(true, false, "secret");
    let e = auth.auth(&password("acme", "alice", "secret"), decode_domain, decode_user).err().unwrap();
    assert_eq!(e.extra, "User disabled");
}

#[test]
fn auth_refuses_disabled_domain_first() {
    let auth = service(false, false, "secret");
    let e = auth.auth(&password("acme", "alice", "guess"), decode_domain, decode_user).err().unwrap();
    assert_eq!(e.kind, capnp::ErrorKind::Failed);
    assert_eq!(e.extra, "Domain disabled");
}

#[test]
fn auth_of_unknown_user_fails_as_not_found() {
    let auth = service(true, true, "secret");
    let e = auth.auth(&password("acme", "bob", "secret"), decode_domain, decode_user).err().unwrap();
    assert_eq!(e.kind, capnp::ErrorKind::Failed);
    assert_eq!(e.extra, "not found");
}

#[test]
fn auth_by_token_is_unimplemented() {
    let auth = service(true, true, "secret");
    let e = auth.auth(&AuthMethod::Token, decode_domain, decode_user).err().unwrap();
    assert_eq!(e.kind, capnp::ErrorKind::Unimplemented);
    assert_eq!(e.extra, "token unsupported");
}

#[test]
fn domain_details_read_from_store() {
    let auth = service(true, true, "pw");
    let domain = auth.get_domain("acme");
    let details = domain.details(auth.store(), decode_domain).unwrap();
    assert!(details.enabled);
    let missing = auth.get_domain("other");
    assert!(missing.details(auth.store(), decode_domain).is_err());
}

#[test]
fn checks_on_decoded_details() {
    let on = DomainDetails { name: "d".to_owned(), description: String::new(), enabled: true };
    assert!(check_domain(&on).is_ok());
    let off = DomainDetails { enabled: false, ..on.clone() };
    assert_eq!(check_domain(&off).unwrap_err().extra, "Domain disabled");
    let user = UserDetails { password: "p".to_owned(), enabled: true };
    assert!(check_user(&user, "p").is_ok());
    assert_eq!(check_user(&user, "q").unwrap_err().extra, "Password incorrect");
    let off = UserDetails { password: "p".to_owned(), enabled: false };
    assert_eq!(check_user(&off, "p").unwrap_err().extra, "User disabled");
    assert_eq!(check_user(&off, "q").unwrap_err().extra, "Password incorrect");
}
