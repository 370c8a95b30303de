//! A custodial peg vault: base currency is locked in a contract-owned custody
//! purse and a 1:1-backed token is issued against it.

pub mod book;
pub mod custody;
pub mod identity;
pub mod laws;
pub mod limits;
pub mod vault;
