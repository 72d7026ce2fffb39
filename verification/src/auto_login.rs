//! The auto-login daemon: its configuration checks, the decisions of the
//! login page flow and of its background tasks.
pub mod config;
pub mod dtypes;
pub mod settings;
pub mod startup;
pub mod login;
pub mod legacy_login;
pub mod chrome_driver;
pub mod driver;
pub mod check;
pub mod task;
