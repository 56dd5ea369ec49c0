# doom_nft_program

Verified core of the DOOM INDEX NFT program: a Solana program that hands out
sequential token ids through reservations and mints one Metaplex Core asset per
reservation, named `DOOM INDEX #<id>` with metadata URI `<base>/<id>.json`.

- `src/` — the library, verified with Verus: state (`GlobalConfig`,
  `MintReservation`), the URL rule and name/URI builders (`utils`), one module per
  instruction (account checks, handler, what it asks Metaplex Core to do, the event it
  emits), the instruction entry points (`doom_nft_program`), and the laws that span
  instructions (`laws`).
- `tests/` — tests of the library on concrete values.
- `app/` — the Anchor program around the library: account derivation and signing,
  the Metaplex Core calls, event emission, and the migration command.
