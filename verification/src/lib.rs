pub mod commands;
pub mod error;
pub mod flip;
pub mod lang;
pub mod pipeline;
pub mod world;
