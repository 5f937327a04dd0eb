# PIKO native miner

A desktop program that mines PIKO blocks with all processor cores and, if wanted, a
graphics device, alone or in a pool.

- `src/` is the library `piko_miner`: what the program computes and decides, as code with
  contracts that Verus proves. `miner` and `gpu` hold the hash search, `difficulty` and
  `bytes` what it rests on; `natural`, `principal`, `text`, `types` and `errors` the values
  that the canisters exchange; `agent`, `wallet` and `commands` the calls that are made;
  `identity` the signing key; `dashboard` what is shown; `supervisor` the state machine of a
  mining session, with its model and what holds of every session beside it.
- `tests/` runs the library, with the outside crates linked in.
- `app/` is the program around it: files, network, threads, the graphics device and the
  window. It asks the library what to do and does it. Two figures are computed there,
  because they are floating point: the hash rate, and how long the device rests. It also
  reads the switches of the window, and empties the channel of shares down to the newest.

The pool's canister id is read from the environment variable `PIKO_POOL_CANISTER_ID`.
