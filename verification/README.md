# epic_wallet

The transactions of an Epic wallet, and the table in which it keeps its records, verified with
Verus.

- `src/tx`: building, cancelling, storing and proving transactions. Each function states what it
  asks of the wallet's backend, in which order, and what it makes of every reply.
- `src/payment_proof.rs`, `src/ed25519.rs`: the message of a payment proof, its signatures, and
  the checks on it.
- `src/wallet.rs`: the trait that a backend implements, and the record of what it was asked.
- `src/db`: the statements that are put to SQLite, when a write is tried again, how keys that were
  kept as text become bytes, how the writes of a batch are kept all together or not at all, and a
  model of the table with the laws of reading and writing.
- `src/build_script.rs`: what the build prints for Cargo.
- `app`: the connection to the database, the counter that threads share, the build environment.
