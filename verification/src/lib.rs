//! Authorizes and prepares a token transfer on behalf of a program-controlled
//! account: the instruction payload is decoded, the program's derived
//! authority is recomputed and compared with the account the caller named, and
//! a decimals-checked transfer is built for the host to invoke under that
//! authority's seeds.

pub mod address;
pub mod authority;
pub mod error;
pub mod instructions;
pub mod processor;
pub mod transfer;
