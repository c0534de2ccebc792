//! A collateralized lending engine with reputation-priced interest, and a
//! collateral-backed stable token.

pub mod policy;
pub mod reputation;
pub mod loan;
pub mod loan_system;
pub mod stable_token;
