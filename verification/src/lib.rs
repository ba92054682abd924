//! State machine, list filter and status-text parser of a terminal front end
//! for the NordVPN command line client.

pub mod app;
pub mod display;
pub mod event;
pub mod filter;
pub mod lemmas;
pub mod nordvpn;
pub mod text;
pub mod types;
pub mod widgets;
