# onboarding-bridge

A bridge contract for the Stellar network that funds contract addresses with
tokens and keeps a fee: single and batch transfers, referrals, swaps, timelocked
deposits, commit-reveal transfers, signed meta-transactions and cross-chain
credits, with roles, limits, lists and scheduled upgrades around them.

- `src/` is the verified library. The bridge is a state machine over plain values;
  each operation states when it is refused, what the books are after it, and what
  it asks of the host. `src/lib.rs` lists the modules. The laws that hold of all
  operations are public proof functions.
- `app/` is the contract around the library: storage, tokens, authorization,
  events.
- `tests/` runs whole scenarios against a small stand-in for the network, and the
  parts of the library one by one.
