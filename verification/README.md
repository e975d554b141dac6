# oas_car

The canonical vehicle state and the read-only Genesis G80 2017 adapters that
fill it from DBC-decoded CAN messages, verified with Verus.

- `src/vehicle_state.rs`: the state, its model, `is_fresh_at`.
- `src/decoded.rs`: decoded messages as the adapters read them.
- `src/genesis_g80.rs`, `src/genesis_g80_legacy.rs`: the adapters, each with
  a specification of what one message does to the state, and the laws proved
  of it.
- `src/float_bits.rs`: equality and the saturating `u8` cast of binary64
  values, taken on their encodings.
- `src/name_map.rs`: the small name-keyed map used for signals and records.
- `app/`: the edge towards `oas-can` messages and binary32 SI values.

Decoded numbers are held as the bits of their binary64 encoding; a scalar in
the state is a `Measurement`, the decoded encoding with the conversion to SI
units. `app/` computes the binary32 SI value of a measurement.
