# lw_watcher

A process watcher: kernel probes report every task that starts; the watcher
turns those records into task signals, tags each with the container it runs
in, passes it through a chain of handlers, and keys it for storage.

- `src/` is the verified library (Verus): the message types (`proto`), the
  probe records as plain values (`raw`), their conversion (`convert`), the
  decisions taken on each record while its blobs arrive (`intake`), the
  container tagging (`cgroup`), the handler chain (`streamline`), decimal
  text (`decimal`) and storage keys (`keys`).
- `app/` is the program around it: the lock file, the probes and the blob
  cache, the cgroup iterator, protobuf encoding, and the redb and redis
  stores.
- `tests/` runs the library on concrete values.
