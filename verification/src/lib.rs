pub mod agent;
pub mod cli;
pub mod config;
pub mod launch;
pub mod laws;
pub mod screen;
pub mod text;
pub mod wizard;
