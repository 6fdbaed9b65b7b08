//! A supervisor for long-running tunnel processes.
//!
//! The library holds the data model of a tunnel session, the rules by which
//! sessions are started, stopped and watched, and the state of the form in
//! which a session is edited. Everything here is stated over mathematical
//! models and proved against them; spawning, signalling, files and the
//! terminal belong to the program built on top.

pub mod kube_config;
pub mod models;
pub mod monitor;
pub mod process;
pub mod ssh_config;
pub mod storage;
pub mod text;
pub mod time;
pub mod ui;
