pub mod client;
pub mod date;
pub mod endpoint;
pub mod schema;
