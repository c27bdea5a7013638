//! Decision logic of an automatic fishing helper: a bite detector over a
//! stream of samples read from a game process, a step-by-step walk of a
//! pointer chain through that process's memory, and the session machine
//! that decides when to cast, sample, reel, cool down and finish.
//!
//! Reading the other process, injecting input and drawing the window are
//! left to the caller, which feeds results back into these machines.

pub mod bite;
pub mod game;
pub mod input;
pub mod lookup;
pub mod pointer;
pub mod session;
