//! Quote computation and instruction account-list assembly for swaps between a
//! yield-bearing vault token and its underlying reserve token, priced from an
//! external oracle and a reserve-accounting bank record.

pub mod errors;
pub mod accounts;
pub mod amm;
pub mod keys;
pub mod outside;
pub mod quote;
pub mod state;
