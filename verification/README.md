# cosmos_client

A client of a Cosmos chain for an IBC relayer, written and verified with Verus.

- `src/` is the library. It reads the configuration, decides what to ask the
  chain and judges the answers; its contracts say exactly what comes out, but for
  the words in which a number is refused as a block height.
- `app/` connects the library to the network: configuration files, the RPC and
  gRPC interfaces of the chain, and a light client.
- `tests/` runs the library on concrete values.

The library calls `bip32`, `ibc`, `ibc-proto`, `prost` and `tendermint` for what
only they can compute. Each such call stands in a small function of its own whose
doc comment says what is claimed of it.
