# solana_programs

The decision logic of four Solana programs, written in Verus and proved
against its contracts:

- `amm`: a constant-product market maker. Deposits and swaps are checked,
  turned into questions for the constant-product curve, and the curve's
  answers turned into token transfers.
- `marketplace`: an NFT marketplace for Metaplex Core assets, with listings
  paid in SOL or in a token and offers escrowed in SOL. Fee splits, account
  checks and payment plans.
- `staking`: non-custodial NFT staking. The staking record lives in the
  asset's `Attributes` plugin, decoded from the asset account's bytes;
  staking writes it, unstaking reads it back, enforces the freeze period and
  computes the reward.
- `escrow`: a lamports escrow (make, take, refund).

Each instruction is a type holding what the instruction reads from its
accounts, with a method that returns what the instruction writes and pays,
or the error that refuses it. Laws that relate instructions are public proof
functions in each module's `laws` file (for the escrow, in `escrow.rs`).

`app/` holds the on-chain side: Anchor account validation, the
constant-product curve calls, and the cross-program invocations that carry
out the library's plans.
