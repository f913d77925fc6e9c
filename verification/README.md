# mindone-coordinator

The verified core of the MindOne coordinator: the part of a shared inference network
that hands jobs to nodes, settles what they cost, and decides whom and what to trust.

`src/` is the library. Each function is a decision on plain values with a contract that
Verus proves; the laws that span several functions are public proof functions beside
them. `app/` puts HTTP and PostgreSQL around it. `tests/` runs the library with the real
cryptographic crates.

| Module | What it decides |
| --- | --- |
| `jobs` | creating, leasing, renewing, failing and showing jobs |
| `streams` | appending to, closing and reading streamed results |
| `settlement`, `billing`, `reserve` | what a result costs, which ledger entries it makes, what leaves the reserve |
| `quota`, `governance`, `honor` | balances, history, service levels, anonymous honours |
| `regulated`, `attestation` | routes and leases on attested hardware |
| `evaluations`, `challenges`, `bindings`, `definitions`, `canaries` | hidden tests of models, and what follows from them |
| `nodes`, `policy`, `routing`, `selection` | nodes, their limits, and which node and model take a job |
| `auth`, `web_auth`, `api_keys` | device login, e-mail accounts, keys |
| `gateway` | the OpenAI-compatible front |
| `standard_data`, `crypto` | values under seal, and the primitives that the library trusts |
| `text`, `json`, `chat`, `ids`, `clock`, `arithmetic`, `error`, `health` | what the rest is written in |

The items that Verus takes on trust are the calls into outside crates in `crypto`, those
into `serde_json` in `json`, one each in `ids`, `quota` and `billing`, and two of the
standard library in `text`.
