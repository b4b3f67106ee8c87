# soroban_governor

A DAO for Soroban: a governor contract that runs proposals (propose, vote,
close, execute, cancel) and a votes token whose balances carry voting power,
with delegation, checkpoints of past voting power and emissions.

- `src/` is the verified library (Verus). It holds the rules of both contracts
  as functions on plain values and on the Soroban host vectors that hold
  checkpoint histories and vote ledgers:
  - `checkpoints`: packed checkpoints, the pruned histories kept for votes, and
    `VotingHistory`, whose reads at past vote ledgers never change while the
    vote ledgers stay in ascending order. They do so as long as each new vote
    ledger is not before the last one; a snapshot proposal (voting at once)
    after a proposal with a vote delay breaks that order, and reads at the
    ledgers out of order are then no longer guaranteed;
  - `voting_units`, `balance`, `votes`, `emissions`: the token's bookkeeping;
  - `types`, `vote_count`, `settings`, `governor`: the proposal rules;
  - `ledger_vec`, `fixed_point`: the trusted contracts of the SDK calls the
    library makes.
- `app/` holds the contracts themselves: storage, authorization, events,
  cross-contract calls and the execution of proposal actions, around the
  library's rules.
- `tests/` runs the library on concrete values.
