# bitz_pool

The rules of a BITZ mining pool server, written in Verus, with the server around them.

`src/` is the library. It decides; it does no I/O of its own. Where a request or a background job
has to ask the chain or the database on its way, the library holds it as a state that says what is
to be asked next, and a `step` that takes the answer. Each `step` is proved to follow a transition
function, and what holds of every run of such steps is proved of that function.

- `claims`, `queue`, `systems::claim_system`: claiming, waiting and being paid.
- `login`, `signup`, `authentication`: who may connect, and what has to be signed.
- `sockets`, `messages`, `epoch`: the connected clients and what they send.
- `bitz_utils`, `accounts`, `onchain`, `instruction`: the accounts and instructions of the mining
  program.
- `stats`, `app_rr_database`: questions about miners, and the queries behind them.
- `startup`, `router`: what has to be in place, and which request goes where.
- `pubkey`, `signature`, `decimal`, `registry`, `reply`, `database_error`: the values that these
  work with.

Functions marked `external_body` call other crates; the comment above each says what is taken on
trust of the call.

`app/` is the server: settings, logs, sockets, the database and the chain. `tests/` runs the library
with the real crates behind it.
