# anvil_reth_bridge

A Verus-verified library that answers reth's read-side provider queries
(block hashes and numbers, headers, blocks, transactions, receipts, account
state) from the chain of an anvil development node.

- `src/primitives.rs`: hashes, addresses, 256-bit words, block ids and range bounds as plain values.
- `src/block.rs`, `src/receipt.rs`: stored blocks, transactions and receipts, and the shapes reth expects; a header's hash comes from alloy's `Header::hash_slow`.
- `src/convert.rs`: conversion of stored transactions, receipts and blocks into reth's shapes; senders are recovered from signatures with alloy's secp256k1 recovery, and blocks are sealed under their header's hash.
- `src/backend.rs`: `BackendView` and `StateRef`, read access to a chain and to state snapshots, each method described by spec functions.
- `src/memory.rs`: an in-memory chain implementing both.
- `src/provider.rs`: `AnvilProvider` and `AnvilStateProvider`, whose contracts say exactly what each query returns.
- `src/reth_api.rs`: `eth_blockNumber`, `eth_getBalance` and `eth_getTransactionCount` over the provider.
- `src/trie.rs`: the state-root and proof queries, which answer fixed empty values since anvil keeps no trie.
- `src/text.rs`: hexadecimal rendering of hashes for error messages.
- `src/network.rs`, `src/create2.rs`: the no-peer network adapter and the CREATE2 deployer holder.
- `src/laws.rs`: properties across queries, such as that a mined transaction is found by its hash.
- `app/lib.rs`: conversions between alloy's types and the library's.
