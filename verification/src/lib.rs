pub mod text;
pub mod names;
pub mod error;
pub mod provider;
pub mod paths;
pub mod config;
pub mod store;
pub mod proxy;
pub mod active;
pub mod menus;
pub mod cli;
pub mod memory;
pub mod plugin;
pub mod weather;
pub mod process;
pub mod agent;
