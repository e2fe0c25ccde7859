//! The static-file layer: route template construction and the mount decision.

use vstd::prelude::*;

use crate::config::StaticConfig;
use crate::error::{ConfigError, Error};
use crate::ext::path_exists;

verus! {

/// The prefix with every trailing `'/'` removed.
pub open spec fn trim_trailing_slashes(s: Seq<char>) -> Seq<char>
    decreases s.len(),
{
    if s.len() > 0 && s[s.len() - 1] == '/' {
        trim_trailing_slashes(s.drop_last())
    } else {
        s
    }
}

pub proof fn lemma_trim_all_slash_suffix(s: Seq<char>, end: int)
    requires
        0 <= end <= s.len(),
        forall|j: int| end <= j < s.len() ==> s[j] == '/',
        end > 0 ==> s[end - 1] != '/',
    ensures
        trim_trailing_slashes(s) == s.subrange(0, end),
    decreases s.len(),
{
    if s.len() == end {
        assert(s =~= s.subrange(0, end));
    } else {
        let t = s.drop_last();
        assert(forall|j: int| end <= j < t.len() ==> t[j] == '/');
        lemma_trim_all_slash_suffix(t, end);
        assert(t.subrange(0, end) =~= s.subrange(0, end));
    }
}

/// Trimming keeps an initial piece of the sequence unchanged.
pub proof fn lemma_trim_is_prefix(s: Seq<char>)
    ensures
        trim_trailing_slashes(s).len() <= s.len(),
        forall|i: int|
            0 <= i < trim_trailing_slashes(s).len() ==> trim_trailing_slashes(s)[i] == s[i],
    decreases s.len(),
{
    if s.len() > 0 && s[s.len() - 1] == '/' {
        let t = s.drop_last();
        lemma_trim_is_prefix(t);
        assert forall|i: int|
            0 <= i < trim_trailing_slashes(s).len() implies trim_trailing_slashes(s)[i]
            == s[i] by {
            assert(trim_trailing_slashes(t)[i] == t[i]);
            assert(t[i] == s[i]);
        }
    }
}

/// The route template under which files are served: the prefix without its
/// trailing slashes, then one path-capturing segment.
pub open spec fn static_route_spec(prefix: Seq<char>) -> Seq<char> {
    trim_trailing_slashes(prefix) + "/{*file}"@
}

/// Characters the router's path parser takes as plain text; the others open
/// parameter or wildcard syntax, whose misuse the parser rejects by panicking.
pub open spec fn route_char_ok(c: char) -> bool {
    c != '{' && c != '}' && c != ':' && c != '*'
}

/// Whether the prefix yields a route template the router accepts: it must
/// begin with `'/'` once trailing slashes are dropped (or be empty, which
/// serves at the root), and hold no path-syntax character.
pub open spec fn static_prefix_acceptable(prefix: Seq<char>) -> bool {
    &&& trim_trailing_slashes(prefix).len() == 0 || trim_trailing_slashes(prefix)[0] == '/'
    &&& forall|i: int| 0 <= i < prefix.len() ==> route_char_ok(#[trigger] prefix[i])
}

/// The decision of the mount, once the filesystem's answer about the
/// directory is known: the directory is checked first, then the prefix.
pub open spec fn static_mount_verdict(config: StaticConfig, dir_exists: bool) -> Option<Error> {
    if !dir_exists {
        Some(Error::Config(ConfigError::StaticDirMissing(config.dir)))
    } else if !static_prefix_acceptable(config.prefix@) {
        Some(Error::Config(ConfigError::InvalidField(config.prefix)))
    } else {
        None
    }
}

/// The route template for a URL prefix.
pub fn static_route(prefix: &str) -> (r: String)
    ensures
        r@ == static_route_spec(prefix@),
{
    let n = prefix.unicode_len();
    let mut end = n;
    while end > 0 && prefix.get_char(end - 1) == '/'
        invariant
            end <= n,
            n == prefix@.len(),
            forall|j: int| end <= j < n ==> prefix@[j] == '/',
        decreases end,
    {
        end -= 1;
    }
    proof {
        lemma_trim_all_slash_suffix(prefix@, end as int);
    }
    let base = prefix.substring_char(0, end);
    let mut s = String::from_str(base);
    s.append("/{*file}");
    s
}

/// Whether every character of the string is plain text to the route parser.
fn route_chars_ok(s: &str) -> (b: bool)
    ensures
        b == forall|i: int| 0 <= i < s@.len() ==> route_char_ok(#[trigger] s@[i]),
{
    let n = s.unicode_len();
    let mut i: usize = 0;
    while i < n
        invariant
            i <= n,
            n == s@.len(),
            forall|j: int| 0 <= j < i ==> route_char_ok(#[trigger] s@[j]),
        decreases n - i,
    {
        let c = s.get_char(i);
        if c == '{' || c == '}' || c == ':' || c == '*' {
            return false;
        }
        i += 1;
    }
    true
}

/// Relies on axum::Router::new and Router::route with axum::routing::
/// get_service over tower_http::services::ServeDir: a fresh router holding
/// only the file-serving route. The path parser panics on a malformed
/// template, so the template is required to be one literal path followed by
/// the one wildcard segment; the route-conflict panic cannot arise, because
/// the route is the first and only one on this router.
#[verifier::external_body]
fn fresh_static_router(route: &str, dir: &str) -> axum::Router
    requires
        route@.len() >= 8,
        route@[0] == '/',
        route@.subrange(route@.len() - 8, route@.len() as int) == "/{*file}"@,
        forall|i: int| 0 <= i < route@.len() - 8 ==> route_char_ok(#[trigger] route@[i]),
{
    axum::Router::new().route(
        route,
        axum::routing::get_service(tower_http::services::ServeDir::new(dir)),
    )
}

/// Relies on axum::Router::fallback_service: requests that match none of the
/// router's own routes are handed to the file router. It only replaces the
/// router's fallback, so it cannot panic; a caller route equal to the file
/// route keeps winning instead of colliding.
#[verifier::external_body]
fn attach_static_fallback(app: axum::Router, files: axum::Router) -> axum::Router {
    app.fallback_service(files)
}

/// Mounts the file server as the router's fallback: requests under the
/// prefix that match no explicit route are served from the directory. The
/// directory is checked first: if it is missing the mount fails with that
/// error; then a prefix the router's parser would reject fails with the
/// invalid-field error; otherwise the mount succeeds.
pub fn apply_static_files(app: axum::Router, config: &StaticConfig) -> (r: Result<
    axum::Router,
    Error,
>)
    ensures
        exists|dir_exists: bool|
            match #[trigger] static_mount_verdict(*config, dir_exists) {
                Some(e) => r == Result::<axum::Router, Error>::Err(e),
                None => r is Ok,
            },
        !static_prefix_acceptable(config.prefix@) ==> r is Err,
        r matches Err(e) ==> (e == Error::Config(ConfigError::StaticDirMissing(config.dir)) || e
            == Error::Config(ConfigError::InvalidField(config.prefix))),
        r matches Err(e) && e == Error::Config(ConfigError::InvalidField(config.prefix))
            ==> !static_prefix_acceptable(config.prefix@),
{
    let dir_exists = path_exists(config.dir.as_str());
    if !dir_exists {
        proof {
            assert(static_mount_verdict(*config, false) == Some(
                Error::Config(ConfigError::StaticDirMissing(config.dir)),
            ));
        }
        return Err(Error::Config(ConfigError::StaticDirMissing(config.dir.clone())));
    }
    let route = static_route(config.prefix.as_str());
    proof {
        reveal_strlit("/{*file}");
    }
    if !route_chars_ok(config.prefix.as_str()) || route.as_str().get_char(0) != '/' {
        proof {
            if trim_trailing_slashes(config.prefix@).len() == 0 {
                assert(route@[0] == '/');
            }
        }
        return Err(Error::Config(ConfigError::InvalidField(config.prefix.clone())));
    }
    proof {
        lemma_trim_is_prefix(config.prefix@);
        assert(route@.subrange(route@.len() - 8, route@.len() as int) =~= "/{*file}"@);
        assert forall|i: int| 0 <= i < route@.len() - 8 implies route_char_ok(
            #[trigger] route@[i],
        ) by {
            assert(route@[i] == trim_trailing_slashes(config.prefix@)[i]);
            assert(trim_trailing_slashes(config.prefix@)[i] == config.prefix@[i]);
        }
        assert(static_mount_verdict(*config, true) is None);
    }
    let files = fresh_static_router(route.as_str(), config.dir.as_str());
    Ok(attach_static_fallback(app, files))
}

} // verus!
