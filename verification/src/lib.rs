//! A toy proof-of-work engine where work is the discovery of probable primes.
//!
//! Blocks carry a probable prime `prime` built from four factors
//! (`prime = a*d + b*c`); candidates are filtered by a coprimality check and a
//! prime-density heuristic before a randomized Miller-Rabin verification.  An
//! adaptive difficulty controller retunes the search parameters after every
//! round from the measured round duration, and an append-only ledger keeps the
//! chain linked back to a fixed genesis block.

pub mod arith;
pub mod auth;
pub mod block;
pub mod difficulty;
pub mod heuristic;
pub mod hex;
pub mod ledger;
pub mod mining;
pub mod node;
pub mod primality;
mod rng;
