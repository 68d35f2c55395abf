# dao

The logic of a DAO that runs on Casper contracts, verified with Verus:
per-mil arithmetic on 256-bit balances, the system configuration, the
validation rules, the bid escrow process (job offers, bids, jobs), the
reputation token's balances and stakes, the variable repository, the
non-transferable VA and KYC tokens, and the voting engine: ballots, the
record and configuration stored for each voting, votings in progress, and
the settlement of a finished voting phase (stakes returned, losers'
reputation burned and minted to the winners, the creator's stake burned
when no quorum is reached).

Layout:

- `src/` — the library. Every function has a contract that Verus proves.
  Arithmetic on balances is carried out by the contract framework's `U256`
  through a few trusted wrappers (`src/u256.rs`), and so are the stored
  encoding of the repository's variables (written and read back) and the
  formatting of token URIs.
- `tests/` — tests of the library on concrete values.
- `app/` — the contract side: environment reads, calls to other contracts,
  CSPR transfers and reverts around the library's decisions.
