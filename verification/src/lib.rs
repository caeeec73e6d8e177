pub mod cancellation;
pub mod exchange;
pub mod http;
pub mod laws;
pub mod orders;
pub mod registry;
pub mod symbols;
pub mod tables;
