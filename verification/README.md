# rfham_rigs

Rig control for amateur radio transceivers, amplifiers and tuners, written in Verus: the
encoding of every Elecraft CAT command and the decoding of every reply are stated as contracts
over byte sequences and proved.

## Layout

- `src/protocol/cat/digits.rs` — decimal digit strings as mathematical values, and the lemmas
  that relate formatting and parsing.
- `src/protocol/cat/common.rs` — reply framing checks and the parsing and formatting of the
  ASCII fields of commands and replies.
- `src/protocol/cat/mod.rs` — command framing (`identifier + arguments + ;`) and range-checked
  numeric arguments.
- `src/protocol/cat/elecraft/` — the command sets: K2, K3/K3S/KX2/KX3, K4 and KH1 transceivers,
  KPA500, KPA1500 and KXPA100 amplifiers, and the KAT500 tuner. Each command has a `to_bytes`
  whose result is stated exactly, and each query a `parse` whose result or error is stated for
  every input its `requires` admits (a few replies with three-digit fields that must fit in a
  byte, and some fixed minimum lengths, are left out by `requires`); `lemma_*_round_trip` proofs show that the reply echoing a setting reads back as the
  value that was set.
- `src/api/`, `src/modes.rs`, `src/entities/` — levels, operating modes, VFO labels and the
  entity traits.
- `src/error/` — the error type and the ranges it reports.
- `app/` — serde, strum, thiserror and rfham-itu integration: serialisable copies of the value
  types with conversions both ways, error display, and band conversions.
- `tests/` — concrete scenarios for the commands, the round trips and each error.
