# freestack

The storage and authentication core of an identity service, verified with Verus.

- `src/kvstore/` — store errors, the `KvStore` interface, entries of a store
  (`KvEntry`), an in-memory store (`memstore`) and the etcd codec (`etcd`),
  which turns the etcd client's replies into store results and encodes values
  in base64.
- `src/identity3.rs` — domains and users in the store, and the password check.
- `src/rpc.rs` — the Cap'n Proto RPC errors that the services answer with.
- `app/` — the server program: the etcd client, packed Cap'n Proto records,
  and the listener.
