//! The server handle: the composed router plus the frozen configuration,
//! bind-address resolution and the middleware status summary.

use vstd::prelude::*;

use crate::config::{address_spec, Config};

verus! {

/// The composed router together with the configuration that produced it. The
/// configuration is frozen: nothing here mutates it.
pub struct WebServer {
    pub app: axum::Router,
    pub config: Config,
}

impl WebServer {
    /// A handle over a composed router and its configuration.
    pub fn new(app: axum::Router, config: Config) -> (r: Self)
        ensures
            r.app == app,
            r.config == config,
    {
        WebServer { app, config }
    }

    /// The frozen configuration.
    pub fn config(&self) -> (r: &Config)
        ensures
            r == &self.config,
    {
        &self.config
    }

    /// The composed router.
    pub fn app(&self) -> (r: &axum::Router)
        ensures
            r == &self.app,
    {
        &self.app
    }

    /// The address to bind: an explicit override wins, else the configured
    /// `"host:port"`.
    pub fn bind_address(&self, addr: Option<&str>) -> (r: String)
        ensures
            match addr {
                Option::Some(a) => r@ == a@,
                Option::None => r@ == address_spec(
                    self.config.server.host@,
                    self.config.server.port,
                ),
            },
    {
        match addr {
            Some(a) => String::from_str(a),
            None => self.config.server_address(),
        }
    }

    /// One entry per middleware: its name and whether it is enabled, in a
    /// fixed order, for the status summary printed before serving.
    pub fn middleware_status(&self) -> (r: Vec<(String, bool)>)
        ensures
            r@.len() == 5,
            r@[0].0@ == "cors"@ && r@[0].1 == self.config.middleware.cors.enabled,
            r@[1].0@ == "static_files"@ && r@[1].1 == self.config.middleware.static_files.enabled,
            r@[2].0@ == "templates"@ && r@[2].1 == self.config.middleware.templates.enabled,
            r@[3].0@ == "jwt"@ && r@[3].1 == self.config.middleware.jwt.enabled,
            r@[4].0@ == "request_logging"@ && r@[4].1 == self.config.middleware.logging.requests,
    {
        let mut r: Vec<(String, bool)> = Vec::new();
        r.push((String::from_str("cors"), self.config.middleware.cors.enabled));
        r.push((String::from_str("static_files"), self.config.middleware.static_files.enabled));
        r.push((String::from_str("templates"), self.config.middleware.templates.enabled));
        r.push((String::from_str("jwt"), self.config.middleware.jwt.enabled));
        r.push((String::from_str("request_logging"), self.config.middleware.logging.requests));
        r
    }
}

} // verus!
