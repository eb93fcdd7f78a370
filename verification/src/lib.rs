//! The verified core of a per-user push-to-talk daemon.
//!
//! The daemon keeps the default audio source muted, unmutes it while the push-to-talk key is held
//! on any configured device, and lets a second key toggle an open microphone. This library holds
//! every decision it makes; the surrounding program only performs what the library asks for.

pub mod audio;
pub mod command;
pub mod command_laws;
pub mod config;
pub mod controller;
pub mod controller_laws;
pub mod daemon;
pub mod daemon_laws;
pub mod fault;
pub mod input;
pub mod input_laws;
pub mod life_laws;
pub mod message_laws;
pub mod numeral;
pub mod path;
pub mod policy_laws;
pub mod publishing_laws;
pub mod reader;
pub mod reader_laws;
pub mod reading_laws;
pub mod request_laws;
pub mod state;
pub mod supervision;
pub mod text;
pub mod worker;
pub mod worker_laws;
pub mod wpctl;
pub mod wpctl_laws;
