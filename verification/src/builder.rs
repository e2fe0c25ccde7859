//! The builder: mutable accumulation of settings and custom middleware
//! descriptors, consumed once by `build`, which validates, composes the
//! middleware chain and returns the server handle.

use std::io::Write;

use tracing_subscriber::layer::SubscriberExt;
use tracing_subscriber::util::SubscriberInitExt;

use vstd::prelude::*;

use crate::config::{
    config_default, toml_table_source_ok, ArchitectureType, Config,
};
use crate::error::{ConfigError, Error};
use crate::config::validate_with_spec;
use crate::error::MiddlewareError;
use crate::middleware::cors::{cors_config_ok, first_invalid, has_wildcard, origin_pred};
use crate::middleware::{CustomMiddleware, MiddlewareManager};
use crate::server::WebServer;

verus! {

/// Accumulates settings, a base router and custom middleware descriptors.
pub struct WebServerBuilder {
    pub config: Config,
    pub router: Option<axum::Router>,
    pub custom_middleware: Vec<CustomMiddleware>,
}

/// Everything of two builders agrees except possibly the server section.
pub open spec fn same_outside_server(a: WebServerBuilder, b: WebServerBuilder) -> bool {
    &&& a.config.middleware == b.config.middleware
    &&& a.router == b.router
    &&& a.custom_middleware == b.custom_middleware
}

/// Everything of two builders agrees except possibly the CORS section.
pub open spec fn same_outside_cors(a: WebServerBuilder, b: WebServerBuilder) -> bool {
    &&& a.config.server == b.config.server
    &&& a.config.middleware.jwt == b.config.middleware.jwt
    &&& a.config.middleware.static_files == b.config.middleware.static_files
    &&& a.config.middleware.templates == b.config.middleware.templates
    &&& a.config.middleware.logging == b.config.middleware.logging
    &&& a.config.middleware.custom == b.config.middleware.custom
    &&& a.router == b.router
    &&& a.custom_middleware == b.custom_middleware
}

/// Everything of two builders agrees except possibly the static-file section.
pub open spec fn same_outside_static(a: WebServerBuilder, b: WebServerBuilder) -> bool {
    &&& a.config.server == b.config.server
    &&& a.config.middleware.cors == b.config.middleware.cors
    &&& a.config.middleware.jwt == b.config.middleware.jwt
    &&& a.config.middleware.templates == b.config.middleware.templates
    &&& a.config.middleware.logging == b.config.middleware.logging
    &&& a.config.middleware.custom == b.config.middleware.custom
    &&& a.router == b.router
    &&& a.custom_middleware == b.custom_middleware
}

/// Everything of two builders agrees except possibly the template section.
pub open spec fn same_outside_templates(a: WebServerBuilder, b: WebServerBuilder) -> bool {
    &&& a.config.server == b.config.server
    &&& a.config.middleware.cors == b.config.middleware.cors
    &&& a.config.middleware.jwt == b.config.middleware.jwt
    &&& a.config.middleware.static_files == b.config.middleware.static_files
    &&& a.config.middleware.logging == b.config.middleware.logging
    &&& a.config.middleware.custom == b.config.middleware.custom
    &&& a.router == b.router
    &&& a.custom_middleware == b.custom_middleware
}

/// Everything of two builders agrees except possibly the token section.
pub open spec fn same_outside_jwt(a: WebServerBuilder, b: WebServerBuilder) -> bool {
    &&& a.config.server == b.config.server
    &&& a.config.middleware.cors == b.config.middleware.cors
    &&& a.config.middleware.static_files == b.config.middleware.static_files
    &&& a.config.middleware.templates == b.config.middleware.templates
    &&& a.config.middleware.logging == b.config.middleware.logging
    &&& a.config.middleware.custom == b.config.middleware.custom
    &&& a.router == b.router
    &&& a.custom_middleware == b.custom_middleware
}

/// Everything of two builders agrees except possibly the logging section.
pub open spec fn same_outside_logging(a: WebServerBuilder, b: WebServerBuilder) -> bool {
    &&& a.config.server == b.config.server
    &&& a.config.middleware.cors == b.config.middleware.cors
    &&& a.config.middleware.jwt == b.config.middleware.jwt
    &&& a.config.middleware.static_files == b.config.middleware.static_files
    &&& a.config.middleware.templates == b.config.middleware.templates
    &&& a.config.middleware.custom == b.config.middleware.custom
    &&& a.router == b.router
    &&& a.custom_middleware == b.custom_middleware
}

/// Everything of two builders agrees except possibly the extension map.
pub open spec fn same_outside_custom(a: WebServerBuilder, b: WebServerBuilder) -> bool {
    &&& a.config.server == b.config.server
    &&& a.config.middleware.cors == b.config.middleware.cors
    &&& a.config.middleware.jwt == b.config.middleware.jwt
    &&& a.config.middleware.static_files == b.config.middleware.static_files
    &&& a.config.middleware.templates == b.config.middleware.templates
    &&& a.config.middleware.logging == b.config.middleware.logging
    &&& a.router == b.router
    &&& a.custom_middleware == b.custom_middleware
}

/// The first position whose key reads as `key`, if any.
pub open spec fn first_key_index(
    s: Seq<(String, serde_json::Value)>,
    key: Seq<char>,
) -> Option<int>
    decreases s.len(),
{
    if s.len() == 0 {
        None
    } else if s[0].0@ == key {
        Some(0int)
    } else {
        match first_key_index(s.drop_first(), key) {
            Some(i) => Some(i + 1),
            None => None,
        }
    }
}

pub proof fn lemma_first_key_index_at(s: Seq<(String, serde_json::Value)>, key: Seq<char>, i: int)
    requires
        0 <= i < s.len(),
        forall|j: int| 0 <= j < i ==> s[j].0@ != key,
        s[i].0@ == key,
    ensures
        first_key_index(s, key) == Some(i),
    decreases i,
{
    if i == 0 {
    } else {
        assert(forall|j: int| 0 <= j < i - 1 ==> s.drop_first()[j].0@ != key);
        assert(s.drop_first()[i - 1] == s[i]);
        lemma_first_key_index_at(s.drop_first(), key, i - 1);
    }
}

pub proof fn lemma_first_key_index_none(s: Seq<(String, serde_json::Value)>, key: Seq<char>)
    requires
        forall|j: int| 0 <= j < s.len() ==> s[j].0@ != key,
    ensures
        first_key_index(s, key) is None,
    decreases s.len(),
{
    if s.len() > 0 {
        assert(forall|j: int| 0 <= j < s.drop_first().len() ==> s.drop_first()[j].0@ != key);
        lemma_first_key_index_none(s.drop_first(), key);
    }
}

/// Relies on axum::Router::new: the empty router.
#[verifier::external_body]
fn router_new() -> axum::Router {
    axum::Router::new()
}

/// Whether `tracing_subscriber::EnvFilter::try_new` accepts a string as a
/// filter directive; the answer depends on the string alone.
pub uninterp spec fn log_level_filter_ok(s: Seq<char>) -> bool;

/// Relies on tracing_subscriber's registry, fmt layer and EnvFilter: installs
/// the process-wide subscriber once; a second installation attempt is a
/// no-op that still succeeds, since the re-installation error is deliberately
/// ignored. The environment's own filter is preferred and only its absence or
/// rejection falls back to the configured level, so a failure can only mean
/// the level itself is no valid directive; the filter's message is carried.
#[verifier::external_body]
fn init_logging(level: &str) -> (r: Result<(), String>)
    ensures
        r is Err ==> !log_level_filter_ok(level@),
{
    let filter = match tracing_subscriber::EnvFilter::try_from_default_env().or_else(
        |_| tracing_subscriber::EnvFilter::try_new(level),
    ) {
        Ok(f) => f,
        Err(e) => {
            return Err(e.to_string());
        },
    };
    let fmt_layer = tracing_subscriber::fmt::layer().with_target(false);
    let _ = tracing_subscriber::registry().with(filter).with(fmt_layer).try_init();
    Ok(())
}

/// Relies on std::io::Write for the standard error stream: reports that a
/// settings document was rejected and the previous configuration kept.
#[verifier::external_body]
fn log_load_warning() {
    let mut err = std::io::stderr();
    let _ = writeln!(
        err,
        "warning: the settings document could not be loaded; keeping the previous configuration",
    );
}

impl Default for WebServerBuilder {
    fn default() -> (r: Self)
        ensures
            config_default(r.config),
            r.router is None,
            r.custom_middleware@.len() == 0,
    {
        WebServerBuilder::new()
    }
}

impl WebServerBuilder {
    /// A fresh builder over the default configuration, with no base router
    /// and no custom descriptors.
    pub fn new() -> (r: Self)
        ensures
            config_default(r.config),
            r.router is None,
            r.custom_middleware@.len() == 0,
    {
        WebServerBuilder {
            config: Config::default(),
            router: None,
            custom_middleware: Vec::new(),
        }
    }

    /// Replaces the whole configuration.
    pub fn config(self, config: Config) -> (r: Self)
        ensures
            r.config == config,
            r.router == self.router,
            r.custom_middleware == self.custom_middleware,
    {
        let mut this = self;
        this.config = config;
        this
    }

    /// Loads the configuration from a settings document, failing open: a
    /// document that cannot be parsed or does not fit the schema is reported
    /// as a warning and the previous configuration is kept unchanged, so the
    /// chain continues.
    pub fn load_from_source(self, source: &str) -> (r: Self)
        ensures
            r.router == self.router,
            r.custom_middleware == self.custom_middleware,
            !toml_table_source_ok(source@) ==> r.config == self.config,
    {
        let mut this = self;
        match Config::from_toml_source(source) {
            Ok(config) => {
                this.config = config;
            },
            Err(_) => {
                log_load_warning();
            },
        }
        this
    }

    /// Sets the listen host and port.
    pub fn listen(self, host: &str, port: u16) -> (r: Self)
        ensures
            r.config.server.host@ == host@,
            r.config.server.port == port,
            r.config.server.architecture == self.config.server.architecture,
            same_outside_server(r, self),
    {
        let mut this = self;
        this.config.server.host = String::from_str(host);
        this.config.server.port = port;
        this
    }

    /// Sets the architecture mode.
    pub fn architecture(self, arch_type: ArchitectureType) -> (r: Self)
        ensures
            r.config.server.architecture == arch_type,
            r.config.server.host == self.config.server.host,
            r.config.server.port == self.config.server.port,
            same_outside_server(r, self),
    {
        let mut this = self;
        this.config.server.architecture = arch_type;
        this
    }

    /// Enables CORS with the given origins; methods and headers keep their
    /// previous values.
    pub fn cors(self, origins: Vec<String>) -> (r: Self)
        ensures
            r.config.middleware.cors.enabled,
            r.config.middleware.cors.origins == origins,
            r.config.middleware.cors.methods == self.config.middleware.cors.methods,
            r.config.middleware.cors.headers == self.config.middleware.cors.headers,
            same_outside_cors(r, self),
    {
        let mut this = self;
        this.config.middleware.cors.enabled = true;
        this.config.middleware.cors.origins = origins;
        this
    }

    /// Enables static-file serving from a directory under a URL prefix.
    pub fn static_files(self, dir: &str, prefix: &str) -> (r: Self)
        ensures
            r.config.middleware.static_files.enabled,
            r.config.middleware.static_files.dir@ == dir@,
            r.config.middleware.static_files.prefix@ == prefix@,
            same_outside_static(r, self),
    {
        let mut this = self;
        this.config.middleware.static_files.enabled = true;
        this.config.middleware.static_files.dir = String::from_str(dir);
        this.config.middleware.static_files.prefix = String::from_str(prefix);
        this
    }

    /// Enables template rendering, but only under the Full architecture: in
    /// API mode the whole call is a no-op, so caller intent that validation
    /// would reject is dropped here instead. Validation still rejects a
    /// template section enabled under API mode through any other path.
    pub fn templates(self, dir: &str, extension: &str) -> (r: Self)
        ensures
            self.config.server.architecture is Full ==> (r.config.middleware.templates.enabled
                && r.config.middleware.templates.dir@ == dir@
                && r.config.middleware.templates.extension@ == extension@ && same_outside_templates(
                r,
                self,
            )),
            !(self.config.server.architecture is Full) ==> r == self,
    {
        let mut this = self;
        if this.config.server.architecture == ArchitectureType::Full {
            this.config.middleware.templates.enabled = true;
            this.config.middleware.templates.dir = String::from_str(dir);
            this.config.middleware.templates.extension = String::from_str(extension);
        }
        this
    }

    /// Enables token authentication with a shared secret and a lifetime in
    /// seconds.
    pub fn jwt_auth(self, secret: &str, expires_in: u64) -> (r: Self)
        ensures
            r.config.middleware.jwt.enabled,
            r.config.middleware.jwt.secret@ == secret@,
            r.config.middleware.jwt.expires_in == expires_in,
            same_outside_jwt(r, self),
    {
        let mut this = self;
        this.config.middleware.jwt.enabled = true;
        this.config.middleware.jwt.secret = String::from_str(secret);
        this.config.middleware.jwt.expires_in = expires_in;
        this
    }

    /// Sets the log level; whether requests are logged is untouched.
    pub fn log_level(self, level: &str) -> (r: Self)
        ensures
            r.config.middleware.logging.level@ == level@,
            r.config.middleware.logging.requests == self.config.middleware.logging.requests,
            same_outside_logging(r, self),
    {
        let mut this = self;
        this.config.middleware.logging.level = String::from_str(level);
        this
    }

    /// Sets the base router the middleware chain will wrap.
    pub fn routes(self, router: axum::Router) -> (r: Self)
        ensures
            r.router == Option::Some(router),
            r.config == self.config,
            r.custom_middleware == self.custom_middleware,
    {
        let mut this = self;
        this.router = Some(router);
        this
    }

    /// Registers a custom middleware descriptor after all earlier ones.
    pub fn middleware(self, middleware: CustomMiddleware) -> (r: Self)
        ensures
            r.custom_middleware@ == self.custom_middleware@.push(middleware),
            r.config == self.config,
            r.router == self.router,
    {
        let mut this = self;
        this.custom_middleware.push(middleware);
        this
    }

    /// Stores a free-form setting under a key: an existing key keeps its
    /// place and gets the new value, a new key goes to the end.
    pub fn custom_config(self, key: &str, value: serde_json::Value) -> (r: Self)
        ensures
            same_outside_custom(r, self),
            (forall|j: int|
                0 <= j < self.config.middleware.custom@.len()
                    ==> (#[trigger] self.config.middleware.custom@[j]).0@ != key@) ==> {
                &&& r.config.middleware.custom@.len() == self.config.middleware.custom@.len() + 1
                &&& r.config.middleware.custom@.last().0@ == key@
                &&& r.config.middleware.custom@.last().1 == value
                &&& r.config.middleware.custom@.take(self.config.middleware.custom@.len() as int)
                    == self.config.middleware.custom@
            },
            match first_key_index(self.config.middleware.custom@, key@) {
                Some(i) => r.config.middleware.custom@ == self.config.middleware.custom@.update(
                    i,
                    (self.config.middleware.custom@[i].0, value),
                ),
                None => {
                    &&& r.config.middleware.custom@.len() == self.config.middleware.custom@.len()
                        + 1
                    &&& r.config.middleware.custom@.last().0@ == key@
                    &&& r.config.middleware.custom@.last().1 == value
                    &&& r.config.middleware.custom@.take(
                        self.config.middleware.custom@.len() as int,
                    ) == self.config.middleware.custom@
                },
            },
    {
        let mut this = self;
        let ghost orig = this.config.middleware.custom@;
        let mut i: usize = 0;
        while i < this.config.middleware.custom.len()
            invariant
                this == self,
                i <= orig.len(),
                this.config.middleware.custom@ == orig,
                forall|j: int| 0 <= j < i ==> orig[j].0@ != key@,
            decreases orig.len() - i,
        {
            if crate::ext::str_eq(this.config.middleware.custom[i].0.as_str(), key) {
                proof {
                    lemma_first_key_index_at(orig, key@, i as int);
                }
                let pair = this.config.middleware.custom.remove(i);
                this.config.middleware.custom.insert(i, (pair.0, value));
                proof {
                    assert(this.config.middleware.custom@ =~= orig.update(
                        i as int,
                        (orig[i as int].0, value),
                    ));
                }
                return this;
            }
            i += 1;
        }
        proof {
            lemma_first_key_index_none(orig, key@);
        }
        this.config.middleware.custom.push((String::from_str(key), value));
        proof {
            assert(this.config.middleware.custom@.take(orig.len() as int) =~= orig);
        }
        this
    }

    /// Validates the configuration, wraps the base router (or an empty one)
    /// in the middleware chain, initializes logging and returns the server
    /// handle over the frozen configuration. The builder is consumed and no
    /// partial server exists on any failure. Validation's verdict is returned
    /// unchanged; an invalid CORS policy aborts with that policy's error; the
    /// log filter is the last thing that can fail, so its error implies every
    /// earlier check passed.
    pub fn build(self) -> (r: Result<WebServer, Error>)
        ensures
            self.config.server.port == 0 ==> r == Result::<WebServer, Error>::Err(
                Error::Config(ConfigError::ZeroPort),
            ),
            self.config.server.port != 0 && self.config.middleware.templates.enabled
                && self.config.server.architecture is Api ==> r == Result::<WebServer, Error>::Err(
                Error::Config(ConfigError::TemplatesRequireFullArchitecture),
            ),
            r matches Ok(s) ==> s.config == self.config,
            r is Ok ==> self.config.server.port != 0,
            r is Ok ==> !(self.config.middleware.templates.enabled
                && self.config.server.architecture is Api),
            r is Ok ==> (self.config.middleware.cors.enabled ==> cors_config_ok(
                self.config.middleware.cors,
            )),
            r is Err ==> (r->Err_0 is Config || (r->Err_0 matches Error::Middleware(
                MiddlewareError::InvalidPolicy(_),
            ))),
            r == Result::<WebServer, Error>::Err(Error::Config(ConfigError::ZeroPort))
                ==> self.config.server.port == 0,
            r == Result::<WebServer, Error>::Err(
                Error::Config(ConfigError::TemplatesRequireFullArchitecture),
            ) ==> self.config.middleware.templates.enabled && self.config.server.architecture
                is Api,
            match r {
                Err(Error::Middleware(_)) => self.config.middleware.cors.enabled
                    && !cors_config_ok(self.config.middleware.cors),
                _ => true,
            },
            match r {
                Err(Error::Config(ConfigError::StaticDirMissing(d))) => self.config.middleware.static_files.enabled
                    && d == self.config.middleware.static_files.dir,
                _ => true,
            },
            match r {
                Err(Error::Config(ConfigError::TemplateDirMissing(d))) => self.config.middleware.templates.enabled
                    && d == self.config.middleware.templates.dir,
                _ => true,
            },
            match r {
                Err(Error::Config(ConfigError::InvalidField(p))) => self.config.middleware.static_files.enabled
                    && p == self.config.middleware.static_files.prefix
                    && !crate::middleware::static_files::static_prefix_acceptable(
                    self.config.middleware.static_files.prefix@,
                ),
                _ => true,
            },
            match r {
                Err(Error::Config(ConfigError::InvalidLogLevel(_))) => {
                    &&& !log_level_filter_ok(self.config.middleware.logging.level@)
                    &&& self.config.server.port != 0
                    &&& !(self.config.middleware.templates.enabled
                        && self.config.server.architecture is Api)
                    &&& (self.config.middleware.cors.enabled ==> cors_config_ok(
                        self.config.middleware.cors,
                    ))
                },
                _ => true,
            },
            self.config.server.port != 0 && !self.config.middleware.templates.enabled
                && !self.config.middleware.static_files.enabled
                && self.config.middleware.cors.enabled && !has_wildcard(
                self.config.middleware.cors.origins@,
            ) ==> (first_invalid(
                self.config.middleware.cors.origins@,
                origin_pred(),
            ) matches Some(bad) ==> r == Result::<WebServer, Error>::Err(
                Error::Middleware(MiddlewareError::InvalidPolicy(bad)),
            )),
    {
        let WebServerBuilder { config, router, custom_middleware } = self;
        match config.validate() {
            Ok(()) => (),
            Err(e) => {
                return Err(e);
            },
        }
        let manager = MiddlewareManager { config, custom_middleware };
        let base = match router {
            Some(rt) => rt,
            None => router_new(),
        };
        let app = match manager.apply_middleware(base) {
            Ok(app) => app,
            Err(e) => {
                return Err(e);
            },
        };
        let MiddlewareManager { config, custom_middleware: _ } = manager;
        match init_logging(config.middleware.logging.level.as_str()) {
            Ok(()) => (),
            Err(m) => {
                return Err(Error::Config(ConfigError::InvalidLogLevel(m)));
            },
        }
        Ok(WebServer::new(app, config))
    }
}

} // verus!
