pub mod text;
pub mod config;
pub mod clock;
pub mod telegram;
pub mod docker;
pub mod checks;
pub mod ip_admin;
pub mod diagnose_core;
pub mod vitals;
pub mod webhook;
