//! A registration service core: it prepares the on-chain instruction that
//! registers a user, signs it into a transaction with fresh identities, and
//! maps every outcome to the HTTP reply that the endpoint sends.
pub mod model;
pub mod chain;
pub mod reply;
pub mod flow;
