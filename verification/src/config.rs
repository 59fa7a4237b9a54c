//! The settings that the server is started with.

use vstd::prelude::*;

verus! {

/// Config, from CLI args or env vars.
#[derive(Debug)]
pub struct Config {
    /// <address>:<port> to serve userfacing endpoints
    pub userfacing_listen_address: String,
    /// <address>:<port> to serve admin endpoints
    pub admin_listen_address: String,
    /// <address>:<port> to serve metrics on
    pub metrics_address: String,
    /// By default, output JSON logs. Only if this flag is set to true, output
    /// colourful human-friendly logs
    pub human_logs: bool,
    /// Max HTTP body size the API accepts
    pub max_body_size: usize,
    /// password to connect to database.
    pub db_dsn: String,
    /// maximum number of connections maintained by the SQL-backed store
    pub db_pool_size: u32,
    /// maximum seconds waiting for a database connection
    pub db_connection_timeout: u64,
    /// Whether to disable the auth header checks in the user- and edge-facing
    /// API. This should only be true in test environments.
    pub disable_auth: bool,
}

impl Clone for Config {
    fn clone(&self) -> (copy: Config)
        ensures
            copy == *self,
    {
        Config {
            userfacing_listen_address: self.userfacing_listen_address.clone(),
            admin_listen_address: self.admin_listen_address.clone(),
            metrics_address: self.metrics_address.clone(),
            human_logs: self.human_logs,
            max_body_size: self.max_body_size,
            db_dsn: self.db_dsn.clone(),
            db_pool_size: self.db_pool_size,
            db_connection_timeout: self.db_connection_timeout,
            disable_auth: self.disable_auth,
        }
    }
}

/// The body size accepted where the settings name none: 64 KiB.
pub fn max_body_size() -> (size: usize)
    ensures
        size == 65536,
{
    65536
}

} // verus!
