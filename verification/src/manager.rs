//! The manager programs: download addresses for the browser archives and
//! the form, service list and log helpers of the manager window.
pub mod gui;
pub mod cli;
pub mod services;
pub mod connect_edit;
