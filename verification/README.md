# solana_client_icp

A Solana JSON-RPC client for Internet Computer canisters, written in Verus.

- `src/` is the verified library: the commitment model (`commitment`), the
  base58 keys, hashes and signatures (`keys`), the HTTP provider and the
  reading of its replies (`provider`), the request options (`config`), the
  decoding of accounts as the node sends them (`account`), the client and its
  decisions on the node's replies (`client`, `accounts`), the
  confirmation of a transaction as a state machine (`confirm`), and the data
  of the example program's instruction (`instruction`).
- `app/` makes the HTTP outcalls, encodes requests and replies as JSON, and
  offers the async methods of the client (`SolanaRpc`), each of which hands
  its decisions to the library.
- `tests/` runs the library on concrete values.
