# raffle

An NFT raffle on Solana. The owner of an NFT uploads it as the prize of a
lottery, the lottery is closed by drawing a winning ticket, and the holder of
that ticket claims the NFT.

- `src/` is the verified library: the lottery's data (`state`), addresses
  (`key`), errors (`error`), lamport bookkeeping and the draw (`utils`), the
  three instructions (`processor`), each of which changes the lottery and
  returns a plan of the effects it asks of the chain with its verdict; a plan
  is run step by step (`Plan::next_step`), ending at the first failed effect;
  and the laws that span the instructions (`lifecycle`).
- `app/` is the Anchor program: the instructions' accounts and constraints,
  the conversions between the chain's values and the library's, and the calls
  that carry out the effects each step asks for.
- `tests/` runs the library on concrete values.
