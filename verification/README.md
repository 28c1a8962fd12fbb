# opendal_zig

The native layer behind the Zig binding of OpenDAL, with its decisions
verified by Verus.

- `src/` is the verified library: the status codes, the copying and checking
  of caller arguments (paths, options, headers, dates), the building of the
  values handed back to the host (metadata, entries, operator information,
  presigned requests), the registry of asynchronous tasks with its state
  machine and completion queue, the recording of each runtime's last error,
  the SurrealDB service's builder, and the entries of an HDFS listing. `src/laws.rs` states and proves the
  properties that span several calls (a task's outcome is signaled once and
  taken once, a cancellation never loses a completed outcome, a normalized
  working directory is stable).
- `app/` is the C interface itself: raw pointers, the Tokio runtime, the
  notifier pipe, and the calls into OpenDAL. Each entry point asks the
  library to check its arguments, runs the storage work, and hands the
  outcome back to the library to record and convert.
- `tests/` runs the library on concrete values.
