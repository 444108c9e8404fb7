# ryu-research

The Rust surface in front of the autoresearch engine: an HTTP sidecar, a tool server over stdin and
stdout, and the supervision of the private Python engine behind both.

- `src/` is the library. It decides what is asked of the engine and what is made of the answers.
  Verus proves the contract of every function in it but those that call outside code (see below).
- `tests/` runs the library on concrete values.
- `app/` is the program: sockets, files, processes, and nothing that could be decided without them.

## What the library covers

| Module | Subject |
|---|---|
| `improvement` | the records and the lifecycle of improvement runs |
| `reasoning` | preparing the next variant of a campaign, and checking what a reasoning provider answers |
| `mcp`, `mcp_stdio` | the research tools, their engine requests, and the JSON-RPC frames around them |
| `api` | the routes of the `/api/research/*` data path |
| `engine_payload` | the engine distribution, its digest, and its installation |
| `engine_runtime` | finding, starting and waiting for the engine; its token and environment |
| `guard` | the bearer in front of every route |
| `json`, `reply`, `text`, `failure` | the values that all of these speak of |

Laws that hold across functions are public proof functions whose names begin with `law_`.

## Outside code

JSON is read and written by `serde_json`, hashes come from `sha2`, hexadecimal text from `hex`,
random bytes from `rand`, and URLs and status lines from `reqwest`; text is decoded and appended to by
the standard library. Thirteen small functions marked `external_body`, two `assume_specification`
items, two declared types and the names for what outside functions return are taken for granted. Each
of them says what it claims, and nothing proves that.
