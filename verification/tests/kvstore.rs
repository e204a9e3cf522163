use freestack::kvstore::memstore::MemStore;
use freestack::kvstore::{permanent, Cause, Error, ErrorKind, KvEntry, KvStore};

#[test]
fn test_kventry() {
    let mut store = MemStore::new();
    let entry: KvEntry<MemStore> = KvEntry::new("/testkey".to_owned());

    let resp = entry.get_raw(&store);
    assert!(resp.is_err());
    assert_eq!(resp.unwrap_err().kind, ErrorKind::Permanent);

    let data = [42];
    assert_eq!(entry.set_raw(&mut store, &data, Some(17)), Ok(18));
    assert_eq!(entry.get_raw(&store), Ok((18, vec![42])));
}

#[test]
fn permanent_error_has_no_cause() {
    let e = permanent("boom".to_owned());
    assert_eq!(e.kind, ErrorKind::Permanent);
    assert_eq!(e.description(), "boom");
    assert!(e.cause().is_none());
    assert_eq!(e.message(), "boom");
}

#[test]
fn error_message_appends_cause() {
    let e = Error {
        kind: ErrorKind::Permanent,
        description: "Not found".to_owned(),
        cause: Some(Cause::NotFound { key: "a/b".to_owned() }),
    };
    assert_eq!(e.message(), "Not found: Key \"a/b\" not found");
    assert_eq!(e.cause().unwrap().message(), "Key \"a/b\" not found");
}

#[test]
fn read_missing_key_is_permanent_not_found() {
    let store = MemStore::new();
    let e = store.get("nothing").unwrap_err();
    assert_eq!(e.kind, ErrorKind::Permanent);
    assert_eq!(e.description, "not found");
    assert!(e.cause.is_none());
}

#[test]
fn read_after_write_gives_value_and_sequencer() {
    let mut store = MemStore::new();
    assert_eq!(store.set("k", &[1, 2, 3], None), Ok(1));
    assert_eq!(store.get("k"), Ok((1, vec![1, 2, 3])));
    assert_eq!(store.set("k", &[4], Some(1)), Ok(2));
    assert_eq!(store.get("k"), Ok((2, vec![4])));
}

#[test]
fn write_keeps_other_keys() {
    let mut store = MemStore::new();
    assert_eq!(store.set("a", &[1], None), Ok(1));
    assert_eq!(store.set("b", &[2], Some(6)), Ok(7));
    assert_eq!(store.get("a"), Ok((1, vec![1])));
    assert_eq!(store.get("b"), Ok((7, vec![2])));
}

#[test]
fn write_with_largest_sequencer_fails_and_changes_nothing() {
    let mut store = MemStore::new();
    assert_eq!(store.set("a", &[1], None), Ok(1));
    let e = store.set("a", &[9], Some(u64::MAX)).unwrap_err();
    assert_eq!(e.kind, ErrorKind::Permanent);
    assert_eq!(e.description, "sequence overflow");
    assert_eq!(store.get("a"), Ok((1, vec![1])));
}

#[test]
fn read_after_delete_fails() {
    let mut store = MemStore::new();
    assert_eq!(store.set("a", &[1], None), Ok(1));
    assert_eq!(store.set("b", &[2], None), Ok(1));
    assert_eq!(store.delete("a", None), Ok(()));
    assert!(store.get("a").is_err());
    assert_eq!(store.get("b"), Ok((1, vec![2])));
    assert_eq!(store.delete("a", None), Ok(()));
}

#[test]
fn entry_key_and_write_through_entry() {
    let mut store = MemStore::new();
    let entry: KvEntry<MemStore> = KvEntry::new("v1/domains/x".to_owned());
    assert_eq!(entry.key(), "v1/domains/x");
    assert_eq!(entry.set_raw(&mut store, &[5, 6], None), Ok(1));
    assert_eq!(store.get("v1/domains/x"), Ok((1, vec![5, 6])));
}

#[test]
fn get_then_hands_bytes_to_callback() {
    let mut store = MemStore::new();
    let entry: KvEntry<MemStore> = KvEntry::new("k".to_owned());
    assert_eq!(entry.set_raw(&mut store, &[3, 4], Some(10)), Ok(11));
    let r = entry.get_then(&store, |seq, bytes| Ok((seq, bytes.len())));
    assert_eq!(r.unwrap(), (11, 2));
}

#[test]
fn get_then_turns_store_errors_into_rpc_errors() {
    let store = MemStore::new();
    let entry: KvEntry<MemStore> = KvEntry::new("k".to_owned());
    let r = entry.get_then(&store, |seq, _bytes| Ok(seq));
    let e = r.unwrap_err();
    assert_eq!(e.kind, capnp::ErrorKind::Failed);
    assert_eq!(e.extra, "not found");
}

#[test]
fn store_errors_map_to_rpc_kinds() {
    let retry = Error { kind: ErrorKind::Retryable, description: "IO error".to_owned(), cause: None };
    let e = retry.into_capnp();
    assert_eq!(e.kind, capnp::ErrorKind::Overloaded);
    assert_eq!(e.extra, "IO error");
    let e = permanent("gone".to_owned()).into_capnp();
    assert_eq!(e.kind, capnp::ErrorKind::Failed);
    assert_eq!(e.extra, "gone");
}
