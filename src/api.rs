//! Clients of the REST side of the exchange.
pub mod cursor;
pub mod gamma;

pub use gamma::GammaClient;
