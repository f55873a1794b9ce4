//! A registry of token metadata records: registration under consecutive ids,
//! lookup with an absence record, a registration count, and supply updates
//! reserved to each token's creator.

pub mod laws;
pub mod registry;
pub mod token;
