# sglang-server

The frontend of an inference server, with its decisions verified by
[Verus](https://github.com/verus-lang/verus).

- `src/` is the verified library. It holds what the server decides and computes:
  conversion and validation of requests, the meaning of runtime replies, the
  folding and framing of generation output, cancellation, error categories, and
  what a start and a shutdown consist of. Everything there works on plain values
  and states in its contract exactly what it returns.
- `app/` is the running server around it: channels, timeouts, sockets, threads,
  and the encoding of the library's values for HTTP, gRPC and Python.
- `tests/` exercise the library from outside.

Floating-point values cross the library as bit patterns: it decides which of them
are shown and where, and never computes with them. Documents are read with
`serde_json` and taken apart into the library's own JSON values.

| Module | What it decides |
| --- | --- |
| `contract`, `error` | failure categories and events |
| `request`, `output`, `ids` | what goes into a generation and comes out of it |
| `frontend` | replies, event streams, admission and cancellation |
| `native_generation` | the `meta_info` of native responses |
| `openai` | OpenAI errors, collection of output, chat support |
| `metadata`, `config` | public model and server metadata |
| `grpc` | the `runtime.v1` surface |
| `api_server` | the HTTP surface |
| `startup`, `runtime` | listening addresses, pools, listeners, shutdown |
| `json`, `text`, `columns` | plain values that the rest is built from |
