//! Configuration and bookkeeping core of the frper desktop client for frpc:
//! the INI file that frpc reads, the request routes of the user interface,
//! the replies sent back to it, the parameters of the settings tables, the
//! log records and the version list read from the package manifest.

pub mod text;
pub mod types;
pub mod response;
pub mod settings;
pub mod routes;
pub mod service;
pub mod logger;
pub mod instance;
