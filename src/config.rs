//! Settings of the HTTP front end.

use vstd::prelude::*;

verus! {

/// Port the server listens on unless told otherwise.
pub const DEFAULT_PORT: u16 = 3005;

/// Where the server reaches the photo service and what it serves.
#[derive(Debug, Clone)]
pub struct ServerConfig {
    pub api_key: String,
    pub photo_api_base_url: String,
    pub samples_dir: String,
    pub port: u16,
}

impl ServerConfig {
    /// A configuration for the given photo service, serving the `samples`
    /// directory on the default port.
    pub fn new(api_key: String, photo_api_base_url: String) -> (r: ServerConfig)
        ensures
            r.api_key@ == api_key@,
            r.photo_api_base_url@ == photo_api_base_url@,
            r.samples_dir@ == "samples"@,
            r.port == DEFAULT_PORT,
    {
        ServerConfig { api_key, photo_api_base_url, samples_dir: String::from_str("samples"), port: DEFAULT_PORT }
    }
}

} // verus!
