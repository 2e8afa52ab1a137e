//! A small federation of ledger components: a price registry, a fungible
//! token ledger and an exchange that sells the token for a reference asset at
//! the registry's price. Each component is a state machine whose entrypoints
//! either fail with no effect or apply one atomic transition.
pub mod auth;
pub mod error;
pub mod laws;
pub mod marketplace;
pub mod oracle;
pub mod table;
pub mod token;
