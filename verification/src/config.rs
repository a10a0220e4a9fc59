use vstd::prelude::*;

verus! {

/// Settings of the exposition server.
#[derive(Clone, Debug)]
pub struct Server {
    pub port: u16,
}

/// Credentials and schedule for the remote telemetry cloud.
#[derive(Clone, Debug)]
pub struct Eagle {
    pub user: String,
    pub password: String,
    pub cloud_id: String,
    pub update_interval_secs: u32,
}

/// The process configuration. The bootstrap collaborator resolves it
/// before the core starts, and it stays read-only for the process
/// lifetime.
#[derive(Clone, Debug)]
pub struct Config {
    pub server: Server,
    pub eagle: Eagle,
}

} // verus!
