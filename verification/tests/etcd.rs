use freestack::kvstore::etcd::{Etcd, EtcdFailure, EtcdNode, NotFound};
use freestack::kvstore::{Cause, Error, ErrorKind};

fn connected() -> Etcd {
    Etcd::new("http://localhost:2379", Ok(())).unwrap()
}

#[test]
fn new_keeps_root_url() {
    assert_eq!(connected().root_url(), "http://localhost:2379");
}

#[test]
fn new_fails_when_cluster_does_not_answer() {
    let failure = EtcdFailure { io: true, message: "connection refused".to_owned() };
    let e = Etcd::new("http://localhost:2379", Err(failure.clone())).err().unwrap();
    assert_eq!(e.kind, ErrorKind::Retryable);
    assert_eq!(e.description, "IO error");
    assert_eq!(e.cause, Some(Cause::Etcd(failure)));
}

#[test]
fn etcd_failures_retryable_only_in_transport() {
    let io = Error::from_etcd(EtcdFailure { io: true, message: "reset".to_owned() });
    assert_eq!(io.kind, ErrorKind::Retryable);
    assert_eq!(io.message(), "IO error: reset");
    let other = Error::from_etcd(EtcdFailure { io: false, message: "bad key".to_owned() });
    assert_eq!(other.kind, ErrorKind::Permanent);
    assert_eq!(other.description, "Etcd error");
    assert_eq!(other.message(), "Etcd error: bad key");
}

#[test]
fn not_found_texts() {
    let nf = NotFound { key: "abc" };
    assert_eq!(nf.description(), "Not found");
    assert_eq!(nf.message(), "Key \"abc\" not found");
    let e = Error::from_not_found(nf);
    assert_eq!(e.kind, ErrorKind::Permanent);
    assert_eq!(e.description, "Not found");
    assert_eq!(e.cause, Some(Cause::NotFound { key: "abc".to_owned() }));
}

#[test]
fn encode_value_is_standard_base64() {
    assert_eq!(Etcd::encode_value(&[52, 32]), "NCA=");
    assert_eq!(Etcd::encode_value(b"hello"), "aGVsbG8=");
    assert_eq!(Etcd::encode_value(&[]), "");
}

#[test]
fn get_decodes_value_and_index() {
    let node = EtcdNode { modified_index: Some(7), value: Some("aGVsbG8=".to_owned()) };
    assert_eq!(connected().get("k", Ok(node)), Ok((7, b"hello".to_vec())));
}

#[test]
fn written_value_reads_back() {
    let bytes = vec![0u8, 255, 17, 42, 3];
    let text = Etcd::encode_value(&bytes);
    let node = EtcdNode { modified_index: Some(99), value: Some(text) };
    assert_eq!(connected().get("k", Ok(node)), Ok((99, bytes)));
}

#[test]
fn get_without_index_fails() {
    let node = EtcdNode { modified_index: None, value: Some("aGVsbG8=".to_owned()) };
    let e = connected().get("k", Ok(node)).unwrap_err();
    assert_eq!(e.kind, ErrorKind::Permanent);
    assert_eq!(e.description, "No modifiedIndex in get response");
    assert!(e.cause.is_none());
}

#[test]
fn get_without_value_is_not_found() {
    let node = EtcdNode { modified_index: Some(3), value: None };
    let e = connected().get("the/key", Ok(node)).unwrap_err();
    assert_eq!(e.kind, ErrorKind::Permanent);
    assert_eq!(e.description, "Not found");
    assert_eq!(e.message(), "Not found: Key \"the/key\" not found");
}

#[test]
fn get_with_invalid_base64_fails() {
    let node = EtcdNode { modified_index: Some(3), value: Some("!!!".to_owned()) };
    let e = connected().get("k", Ok(node)).unwrap_err();
    assert_eq!(e.kind, ErrorKind::Permanent);
    assert_eq!(e.description, "Invalid base64 value in get response");
}

#[test]
fn get_passes_client_failure_on() {
    let failure = EtcdFailure { io: false, message: "Key not found".to_owned() };
    let e = connected().get("k", Err(failure.clone())).unwrap_err();
    assert_eq!(e.kind, ErrorKind::Permanent);
    assert_eq!(e.cause, Some(Cause::Etcd(failure)));
}

#[test]
fn set_gives_new_index() {
    let node = EtcdNode { modified_index: Some(12), value: Some("AA==".to_owned()) };
    assert_eq!(connected().set(Ok(node)), Ok(12));
    let node = EtcdNode { modified_index: None, value: None };
    assert_eq!(
        connected().set(Ok(node)).unwrap_err().description,
        "No modifiedIndex in get response"
    );
    let failure = EtcdFailure { io: true, message: "timeout".to_owned() };
    assert_eq!(connected().set(Err(failure)).unwrap_err().kind, ErrorKind::Retryable);
}

#[test]
fn delete_passes_client_outcome_on() {
    assert_eq!(connected().delete(Ok(())), Ok(()));
    let failure = EtcdFailure { io: true, message: "timeout".to_owned() };
    assert_eq!(connected().delete(Err(failure)).unwrap_err().description, "IO error");
}
