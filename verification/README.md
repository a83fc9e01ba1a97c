# titan-integration-template

Titan trading-venue integrations for two Solana programs, written in Verus:

- **Quay** (`src/quay/`): one Quay Strategy as a venue. Account decoding,
  the routing gate, quoting by re-running Quay's swap simulator with a
  finite-difference marginal price, swap-instruction building and
  pool-creation parsing.
- **Dr. Fraudsworth** (`src/drfraudsworth/`): the CRIME/SOL and FRAUD/SOL
  pools traded through the Tax Program, and the CRIME/FRAUD/PROFIT
  conversion vault. Tax, LP-fee and constant-product math, account layouts,
  instruction data and account lists.

Shared pieces: `trading_venue.rs` (addresses, accounts, quotes, errors as
plain values), `le_bytes.rs` (little-endian encoding), `pda.rs` (program
addresses), `hashing.rs` (SHA-256), `mint.rs` (token metadata from mint
accounts), `programs.rs` (well-known program ids), `route_venues/` (the
route program's Quay leg).

Every function in `src/` carries a contract proved by Verus. Calls into
`quay_sdk`, `solana_pubkey`, `sha2` and `spl_token_2022_interface` go through
small trusted wrappers whose contracts are stated next to them.

`app/` holds what cannot be verified: fetching accounts asynchronously,
conversion to the Solana SDK types and floating-point prices.
