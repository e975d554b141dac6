//! Canonical vehicle state and the read-only manufacturer adapters that fill it
//! from decoded CAN messages.

pub mod decoded;
pub mod float_bits;
pub mod name_map;
pub mod vehicle_state;
pub mod adapter;
pub mod genesis_g80;
pub mod genesis_g80_legacy;
