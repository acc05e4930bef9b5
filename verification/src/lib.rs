//! Statement and schema handling for the moedb object store, with the
//! configuration model and connection bookkeeping shared by its servers.

pub mod text;
pub mod json;
pub mod manipulator;
pub mod errors;
pub mod stores;
pub mod schema;
pub mod statement;
pub mod memory;
pub mod command;
pub mod config;
pub mod records;
pub mod io;
pub mod threads;
pub mod conn;
pub mod laws;
pub mod pem;
