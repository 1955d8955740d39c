# scavngr

The rules of a recycling supply chain on Stellar/Soroban, written as verified
state machines in Verus.

- `src/types.rs`: participant roles, waste types, materials, waste records,
  transfers and recycling statistics.
- `src/contract/`: the participant / waste / incentive contract
  (`ScavengerContract`): administration and reward percentages, participant
  registration, material submission and verification, waste records with
  location, hand-over, confirmation and deactivation, manufacturer incentives.
  `laws.rs` holds the properties that relate several calls.
- `src/scavenger/`: the configured rewards contract (`Storage` and the calls
  of `ScavengerContract`): admin, token, charity, percentages, incentives with
  budgets and the distribution of rewards along a material's transfer history.
  `laws.rs` holds its cross-call properties.
- `app/`: the Soroban contracts around the library: storage, authorisation,
  events and token transfers.

Accounts are numbered (`AccountId`) inside the library; a refused call returns
an error and leaves the state unchanged, and its `message()` is the text with
which the contract aborts.

The tests under `tests/` exercise the library on concrete values.
