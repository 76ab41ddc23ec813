//! Startup configuration: the Twitch credentials and the listen port.

use vstd::prelude::*;

verus! {

/// The port served when none is configured.
pub const DEFAULT_PORT: u16 = 8080;

/// The gateway's configuration, from flags or environment.
#[derive(Debug, Clone)]
pub struct Args {
    /// Twitch App client ID.
    pub client_id: String,
    /// Twitch App client secret.
    pub client_secret: String,
    /// Port to listen on.
    pub port: u16,
}

impl Args {
    /// Bundles the credentials with the configured port, or the default.
    pub fn new(client_id: String, client_secret: String, port: Option<u16>) -> (r: Args)
        ensures
            r.client_id == client_id,
            r.client_secret == client_secret,
            r.port == (match port {
                Some(p) => p,
                None => DEFAULT_PORT,
            }),
    {
        let port = match port {
            Some(p) => p,
            None => DEFAULT_PORT,
        };
        Args { client_id, client_secret, port }
    }
}

} // verus!
