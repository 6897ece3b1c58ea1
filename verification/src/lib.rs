//! Core of a small 3D demo: a deterministic game PRNG, the integer-side
//! buffer generation of a CPU particle system, and the resource-pool slot
//! bookkeeping of its graphics binding layer.

pub mod game_rand;
pub mod particle_buffers;
pub mod sgfx;
