# solana-staking

An NFT staking pool: holders of NFTs from one allowed collection stake them
into a pool that pays a fixed number of reward tokens per second, shared out
over the staked NFTs through a per-share reward accumulator kept in fixed
point (`COMPUTATION_DECIMALS`).

- `src/` is the verified library (Verus): the account state (`state`), the
  reward accounting (`reward`), staking (`stake`, with the metadata decoding
  in `metadata`), claiming (`claim`), opening a position (`user`), and the
  properties that hold across instructions (`laws`).
- `app/` is the Anchor program around it: account validation, reading the
  clock and the metadata account, and the token transfer and mint that a
  granted stake or claim asks for.
- `tests/` exercises the library on concrete values.
