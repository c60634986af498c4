# pre-market

A pre-market order book for tokens that are not yet issued: a creator
registers a token, sellers place orders backed by collateral, buyers fill
them, and a seller may cancel an order for a refund of its unfilled part.

- `src/` is the verified library. Each instruction is a function from the
  accounts it reads (as plain values) to the accounts it writes, the token
  transfer it asks for and the event it announces, with a contract that
  says which requests are refused and what a success changes.
  `src/laws.rs` proves properties that span instructions.
- `app/` is the on-chain program: it loads the accounts, calls the library,
  performs the token transfers and emits the events.
- `tests/` runs the library on concrete accounts.
