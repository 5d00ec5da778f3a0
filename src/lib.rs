pub mod errors;
pub mod models;
pub mod routes;
pub mod store;
pub mod tasks;
