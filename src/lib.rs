pub mod code;
pub mod connection;
pub mod keys;
pub mod laws;
pub mod model;
pub mod registry;
pub mod relay;
