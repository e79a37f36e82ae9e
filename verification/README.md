# astria_sequencer

The application logic of the Astria sequencer as a Verus library: the state that the
sequencer keeps, the checks and effects of every kind of action, the execution of whole
transactions, the fee queries, the state and gRPC storage keys, the layered state cache and the
mempool's diagnostics console.

- `src/` is the verified library. `state.rs` holds the state and its mathematical view
  (`StateView`); `checked_actions/` holds one module per kind of action, each with the spec
  function of its checks and of its effect; `checked_transaction.rs` runs the actions of a
  transaction atomically; `laws.rs` states and proves the properties that span functions
  (conservation of funds, one-time use of withdrawal events, read-after-write of stored
  values, and others).
- `app/` is ordinary Rust around the library: the command line and text output of the mempool
  console, and the JSON forms of withdrawal memos, ICS20 packet data and fee components.
- `tests/` runs the library on concrete values.
