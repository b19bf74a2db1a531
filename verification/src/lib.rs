//! A verified allocation engine for a fixed inventory of unique tokens,
//! sold for an exact price under two administrator-gated sale modes, with
//! a seeded draw-without-replacement over the remaining pool.

pub mod bytes;
pub mod contract;
pub mod crypto;
pub mod draw;
pub mod laws;
pub mod msg;
pub mod state;
