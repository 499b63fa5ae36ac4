//! Verified core of the mbtunnel client: the settings model and its
//! encrypted on-disk format, tunnel state bookkeeping, server-response
//! parsing and the text shown to the user.
use vstd::prelude::*;

pub mod text;
pub mod app_config;
pub mod config_file;
pub mod display;
pub mod parse;
pub mod dialog;
pub mod update;
pub mod tunnel;
pub mod fetch;
pub mod pathfinder;
pub mod startup;
pub mod validate;
pub mod vpn;
pub mod speedtest;
pub mod elevation;

verus! {
} // verus!
