pub mod derivation;
pub mod error;
pub mod instruction;
pub mod ledger;
pub mod processor;
pub mod state;
