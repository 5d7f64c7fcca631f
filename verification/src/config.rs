//! The settings of one run.

use vstd::prelude::*;

verus! {

/// The settings of one run, as the configuration file gives them.
#[derive(Debug)]
pub struct Config {
    /// Name or address of the remote listener.
    pub votifier_host: String,
    /// Port of the remote listener.
    pub votifier_port: u16,
    /// The listener's public key: the base64 body, without PEM armor.
    pub votifier_key: String,
    /// The site identifier that every payload names.
    pub site_name: String,
    /// Milliseconds between two attempts; zero leaves the rate unbounded.
    pub rate: u64,
    /// The most attempts that may be in flight at once.
    pub max_connections: usize,
}

} // verus!
