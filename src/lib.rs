//! Escrow-mediated consignment marketplace: the records, rules and fee
//! arithmetic of an exhibition program, checked instruction by instruction.

pub mod address;
pub mod errors;
pub mod fees;
pub mod identity;
pub mod instructions;
pub mod laws;
pub mod state;
