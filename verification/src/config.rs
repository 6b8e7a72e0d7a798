//! Server configuration.
use vstd::prelude::*;

verus! {

/// Settings of the HTTP server.
#[derive(Debug)]
pub struct ServerConfig {
    /// Directory that holds the database, templates and account caches.
    pub data_dir: String,
}

/// The data directory of the running server.
pub fn get_data_dir(server: &ServerConfig) -> (dir: &str)
    ensures
        dir@ == server.data_dir@,
{
    server.data_dir.as_str()
}

} // verus!
