# easysales

The verified core of the EasySales servers and of `moedb`, their object store.

`src/` is the library, checked by Verus:

- `statement` parses store statements (`SHOW :*`, `GET :db:store {...}`,
  `CREATE :db {schema}`, ...); `schema` checks store schemas given as JSON;
  `command` answers statements over the `memory` cache (a `dashmap`) and the
  disk store; `errors` holds their errors and messages.
- `text` and `json` are the string and JSON helpers they rest on; `json` reads
  documents through `serde_json`; `schema` checks names with `regex`.
- `conn` holds the bookkeeping of server connections, `threads` the worker
  count, `io` the handling of reads that would block, `stores` the lookup of
  column families, `pem` the reading of certificates and private keys
  (through `rustls-pemfile`), `config` and `records` the plain data types.
- `laws` states properties that hold across the library.

`app/` is the program around it: the Unix-socket store server on RocksDB, the
TCP and HTTP servers, logging, TLS set-up and the command-line tool.
