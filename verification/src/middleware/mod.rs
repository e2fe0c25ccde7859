//! Middleware decisions: which layers are enabled, in which order they wrap
//! the router, and how each configuration section becomes a layer.

pub mod cors;
pub mod jwt;
pub mod static_files;

use std::io::Write;

use vstd::prelude::*;

use crate::config::Config;
use crate::error::Error;
use crate::middleware::cors::{
    cors_config_ok, create_cors_layer, first_invalid, has_wildcard, origin_pred,
};
use crate::middleware::static_files::{
    apply_static_files, static_mount_verdict, static_prefix_acceptable,
};

verus! {

/// A caller-supplied middleware descriptor: it reports a name for
/// observability and contributes an identity layer when applied.
#[derive(Debug, Clone)]
pub struct CustomMiddleware {
    pub name: String,
}

/// One step of the application plan.
#[derive(Debug, Clone, Copy, PartialEq, Eq, Structural)]
pub enum MiddlewareKind {
    /// Request/response logging; wraps outermost.
    Logging,
    /// Cross-origin policy enforcement; wraps inside logging.
    Cors,
    /// Static-file serving; wraps inside CORS.
    StaticFiles,
    /// The caller's descriptor at this registration index.
    Custom(usize),
}

/// The onion, outermost first: logging wraps everything, CORS sits inside it,
/// static-file serving inside CORS, and the custom descriptors innermost in
/// registration order. The router composes the other way round — a layer
/// added later wraps everything added earlier, and a route added after a
/// layer sits outside it — so the plan is applied to the router in reverse.
pub open spec fn plan_spec(c: Config, n_custom: nat) -> Seq<MiddlewareKind> {
    (if c.middleware.logging.requests {
        seq![MiddlewareKind::Logging]
    } else {
        Seq::empty()
    }) + (if c.middleware.cors.enabled {
        seq![MiddlewareKind::Cors]
    } else {
        Seq::empty()
    }) + (if c.middleware.static_files.enabled {
        seq![MiddlewareKind::StaticFiles]
    } else {
        Seq::empty()
    }) + Seq::new(n_custom, |i: int| MiddlewareKind::Custom(i as usize))
}

/// The rank of a step in the fixed order; custom layers all rank last.
pub open spec fn kind_rank(k: MiddlewareKind) -> int {
    match k {
        MiddlewareKind::Logging => 0,
        MiddlewareKind::Cors => 1,
        MiddlewareKind::StaticFiles => 2,
        MiddlewareKind::Custom(_) => 3,
    }
}

/// Relies on axum::Router::layer with tower_http::trace::TraceLayer: wraps
/// everything added to the router so far in HTTP request/response logging.
#[verifier::external_body]
fn layer_trace(app: axum::Router) -> axum::Router {
    app.layer(tower_http::trace::TraceLayer::new_for_http())
}

/// Relies on axum::Router::layer: wraps everything added to the router so far
/// in the given CORS layer.
#[verifier::external_body]
fn layer_cors(app: axum::Router, layer: tower_http::cors::CorsLayer) -> axum::Router {
    app.layer(layer)
}

/// Relies on std::io::Write for the standard error stream: reports one custom
/// descriptor being applied, by name.
#[verifier::external_body]
fn log_custom_applied(name: &str) {
    let mut err = std::io::stderr();
    let _ = writeln!(err, "applying custom middleware: {}", name);
}

/// Applies the enabled layers to a router according to the configuration.
pub struct MiddlewareManager {
    pub config: Config,
    pub custom_middleware: Vec<CustomMiddleware>,
}

impl MiddlewareManager {
    /// A manager for the given frozen configuration, with no custom
    /// descriptors yet.
    pub fn new(config: Config) -> (r: Self)
        ensures
            r.config == config,
            r.custom_middleware@.len() == 0,
    {
        MiddlewareManager { config, custom_middleware: Vec::new() }
    }

    /// Registers one more custom descriptor, after all earlier ones.
    pub fn add_custom_middleware(&mut self, middleware: CustomMiddleware)
        ensures
            final(self).config == old(self).config,
            final(self).custom_middleware@ == old(self).custom_middleware@.push(middleware),
    {
        self.custom_middleware.push(middleware);
    }

    /// The application plan for this configuration, in the order the layers
    /// are applied.
    pub fn plan(&self) -> (r: Vec<MiddlewareKind>)
        ensures
            r@ == plan_spec(self.config, self.custom_middleware@.len()),
    {
        let mut r: Vec<MiddlewareKind> = Vec::new();
        if self.config.middleware.logging.requests {
            r.push(MiddlewareKind::Logging);
        }
        if self.config.middleware.cors.enabled {
            r.push(MiddlewareKind::Cors);
        }
        if self.config.middleware.static_files.enabled {
            r.push(MiddlewareKind::StaticFiles);
        }
        let mut i: usize = 0;
        let ghost base = r@;
        while i < self.custom_middleware.len()
            invariant
                i <= self.custom_middleware@.len(),
                r@ == base + Seq::new(i as nat, |k: int| MiddlewareKind::Custom(k as usize)),
            decreases self.custom_middleware@.len() - i,
        {
            r.push(MiddlewareKind::Custom(i));
            proof {
                assert(r@ =~= base + Seq::new(
                    (i + 1) as nat,
                    |k: int| MiddlewareKind::Custom(k as usize),
                ));
            }
            i += 1;
        }
        proof {
            assert(r@ =~= plan_spec(self.config, self.custom_middleware@.len()));
        }
        r
    }

    /// Wraps the router in every enabled layer so that requests pass them in
    /// the plan's order: logging outermost, then CORS, then static-file
    /// serving, then the custom descriptors (identity layers, each logged by
    /// name). Since a later router layer wraps the earlier ones, the chain is
    /// applied innermost-first: the static route is mounted before the CORS
    /// layer, and the logging layer comes last. The CORS policy is still
    /// decided first: an invalid policy aborts before anything is mounted,
    /// then a missing static directory or an unusable prefix aborts.
    pub fn apply_middleware(&self, app: axum::Router) -> (r: Result<axum::Router, Error>)
        ensures
            r is Ok ==> (self.config.middleware.cors.enabled ==> cors_config_ok(
                self.config.middleware.cors,
            )),
            self.config.middleware.cors.enabled && !cors_config_ok(self.config.middleware.cors)
                ==> r is Err && (r->Err_0 matches Error::Middleware(_)),
            !self.config.middleware.static_files.enabled ==> (r is Ok <==> (
            self.config.middleware.cors.enabled ==> cors_config_ok(self.config.middleware.cors))),
            self.config.middleware.cors.enabled && !has_wildcard(
                self.config.middleware.cors.origins@,
            ) ==> (first_invalid(
                self.config.middleware.cors.origins@,
                origin_pred(),
            ) matches Some(bad) ==> r == Result::<axum::Router, Error>::Err(
                Error::Middleware(crate::error::MiddlewareError::InvalidPolicy(bad)),
            )),
            !self.config.middleware.logging.requests && !self.config.middleware.cors.enabled
                && !self.config.middleware.static_files.enabled ==> r == Result::<
                axum::Router,
                Error,
            >::Ok(app),
            r matches Err(e) ==> ((e matches Error::Middleware(
                crate::error::MiddlewareError::InvalidPolicy(_),
            )) || e == Error::Config(
                crate::error::ConfigError::StaticDirMissing(
                    self.config.middleware.static_files.dir,
                ),
            ) || e == Error::Config(
                crate::error::ConfigError::InvalidField(self.config.middleware.static_files.prefix),
            )),
            match r {
                Err(Error::Middleware(_)) => self.config.middleware.cors.enabled
                    && !cors_config_ok(self.config.middleware.cors),
                _ => true,
            },
            match r {
                Err(Error::Config(crate::error::ConfigError::InvalidField(p))) => self.config.middleware.static_files.enabled
                    && p == self.config.middleware.static_files.prefix
                    && !static_prefix_acceptable(self.config.middleware.static_files.prefix@),
                _ => true,
            },
            (self.config.middleware.cors.enabled ==> cors_config_ok(self.config.middleware.cors))
                && self.config.middleware.static_files.enabled ==> exists|dir_exists: bool|
                match #[trigger] static_mount_verdict(
                    self.config.middleware.static_files,
                    dir_exists,
                ) {
                    Some(e) => r == Result::<axum::Router, Error>::Err(e),
                    None => r is Ok,
                },
    {
        let cors_layer = if self.config.middleware.cors.enabled {
            match create_cors_layer(&self.config.middleware.cors) {
                Ok(layer) => Some(layer),
                Err(e) => {
                    return Err(e);
                },
            }
        } else {
            None
        };
        let mut app = app;
        if self.config.middleware.static_files.enabled {
            app = match apply_static_files(app, &self.config.middleware.static_files) {
                Ok(mounted) => mounted,
                Err(e) => {
                    return Err(e);
                },
            };
        }
        let mut i: usize = 0;
        while i < self.custom_middleware.len()
            decreases self.custom_middleware@.len() - i,
        {
            log_custom_applied(self.custom_middleware[i].name.as_str());
            i += 1;
        }
        app = match cors_layer {
            Some(layer) => layer_cors(app, layer),
            None => app,
        };
        if self.config.middleware.logging.requests {
            app = layer_trace(app);
        }
        Ok(app)
    }
}

/// The plan is deterministic and ordered: every step ranks no higher than the
/// steps after it, each built-in layer appears exactly when its section is
/// enabled, and the custom descriptors keep their registration order.
pub proof fn lemma_plan_order(c: Config, n_custom: nat)
    requires
        n_custom <= usize::MAX,
    ensures
        forall|i: int, j: int|
            0 <= i < j < plan_spec(c, n_custom).len() ==> kind_rank(#[trigger] plan_spec(c, n_custom)[i])
                <= kind_rank(#[trigger] plan_spec(c, n_custom)[j]),
        plan_spec(c, n_custom).contains(MiddlewareKind::Logging)
            <==> c.middleware.logging.requests,
        plan_spec(c, n_custom).contains(MiddlewareKind::Cors) <==> c.middleware.cors.enabled,
        plan_spec(c, n_custom).contains(MiddlewareKind::StaticFiles)
            <==> c.middleware.static_files.enabled,
        forall|i: int, j: int|
            0 <= i < j < plan_spec(c, n_custom).len() && (#[trigger] plan_spec(c, n_custom)[i])
                is Custom && (#[trigger] plan_spec(c, n_custom)[j]) is Custom ==> plan_spec(
                c,
                n_custom,
            )[i]->0 < plan_spec(c, n_custom)[j]->0,
{
    let p = plan_spec(c, n_custom);
    let base = (if c.middleware.logging.requests { 1int } else { 0int }) + (
    if c.middleware.cors.enabled { 1int } else { 0int }) + (if c.middleware.static_files.enabled {
        1int
    } else {
        0int
    });
    assert forall|i: int| 0 <= i < p.len() && i >= base implies #[trigger] p[i]
        == MiddlewareKind::Custom((i - base) as usize) by {}
    assert forall|i: int| 0 <= i < p.len() && (#[trigger] p[i]) is Custom implies i >= base by {}
    if c.middleware.logging.requests {
        assert(p[0] == MiddlewareKind::Logging);
    }
    if c.middleware.cors.enabled {
        let i = if c.middleware.logging.requests { 1int } else { 0int };
        assert(p[i] == MiddlewareKind::Cors);
    }
    if c.middleware.static_files.enabled {
        let i = (if c.middleware.logging.requests { 1int } else { 0int })
            + (if c.middleware.cors.enabled { 1int } else { 0int });
        assert(p[i] == MiddlewareKind::StaticFiles);
    }
}

} // verus!
