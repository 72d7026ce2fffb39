//! Campus network auto-login: configuration, connectivity detection,
//! login-page driving decisions and manager helpers, with their contracts.
pub mod text;
pub mod login_common;
pub mod campus_core;
pub mod auto_login;
pub mod manager;
