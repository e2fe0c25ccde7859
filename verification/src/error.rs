//! Error taxonomy: configuration errors abort building, middleware policy
//! errors abort building, server errors belong to the bind/serve path.

use vstd::prelude::*;

verus! {

/// A reason why a configuration is rejected.
#[derive(Debug)]
pub enum ConfigError {
    /// The server port is zero.
    ZeroPort,
    /// Templates are enabled while the architecture is the pure API mode.
    TemplatesRequireFullArchitecture,
    /// The static-file directory does not exist on disk.
    StaticDirMissing(String),
    /// The template directory does not exist on disk.
    TemplateDirMissing(String),
    /// A settings document could not be parsed at all; the parser's message
    /// is carried.
    ParseFailed(String),
    /// A settings document lacks a required key (the key is named).
    MissingField(String),
    /// A settings document holds a value of the wrong shape (the key is named).
    InvalidField(String),
    /// The configured log level was rejected by the logging backend.
    InvalidLogLevel(String),
    /// The template subsystem was asked for while its section is disabled.
    TemplatesDisabled,
}

/// A reason why assembling the middleware chain fails.
#[derive(Debug)]
pub enum MiddlewareError {
    /// A configured origin, method or header is not syntactically valid for
    /// its category; the offending string is carried.
    InvalidPolicy(String),
    /// A request carried no authorization header.
    MissingAuthorization,
    /// A request's authorization header is not a bearer token.
    InvalidAuthorizationFormat,
}

/// The library's error type.
#[derive(Debug)]
pub enum Error {
    Config(ConfigError),
    Middleware(MiddlewareError),
    /// The resolved bind address is not a socket address.
    InvalidAddress(String),
    /// The listener could not be bound (for example, the port is in use).
    BindFailed(String),
    /// The server failed while running.
    ServerStart(String),
    Jwt(String),
    Template(String),
    Internal(String),
}

/// The HTTP status that reporting this error to a client should use.
pub open spec fn status_code_spec(e: Error) -> u16 {
    match e {
        Error::Config(_) => 500,
        Error::Middleware(_) => 500,
        Error::InvalidAddress(_) => 500,
        Error::BindFailed(_) => 500,
        Error::ServerStart(_) => 500,
        Error::Jwt(_) => 401,
        Error::Template(_) => 500,
        Error::Internal(_) => 500,
    }
}

impl Error {
    /// The HTTP status code under which this error is reported.
    pub fn status_code(&self) -> (r: u16)
        ensures
            r == status_code_spec(*self),
    {
        match self {
            Error::Config(_) => 500,
            Error::Middleware(_) => 500,
            Error::InvalidAddress(_) => 500,
            Error::BindFailed(_) => 500,
            Error::ServerStart(_) => 500,
            Error::Jwt(_) => 401,
            Error::Template(_) => 500,
            Error::Internal(_) => 500,
        }
    }
}

} // verus!
