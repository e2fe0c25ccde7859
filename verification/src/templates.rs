//! The template subsystem: the capability gate, directory checking, glob
//! safety, and a thin verified shell around the outside rendering engine.

use vstd::prelude::*;

use crate::config::TemplateConfig;
use crate::error::{ConfigError, Error};
use crate::ext::path_exists;

verus! {

/// Characters the glob walker takes as plain text; the others open pattern
/// syntax, whose misuse the walker rejects by panicking inside the engine.
pub open spec fn glob_char_ok(c: char) -> bool {
    c != '*' && c != '?' && c != '[' && c != ']' && c != '{' && c != '}'
}

/// Whether a string is plain text to the glob walker.
pub open spec fn glob_literal_ok(s: Seq<char>) -> bool {
    forall|i: int| 0 <= i < s.len() ==> glob_char_ok(#[trigger] s[i])
}

/// Whether every character of the string is plain text to the glob walker.
fn glob_literal(s: &str) -> (b: bool)
    ensures
        b == glob_literal_ok(s@),
{
    let n = s.unicode_len();
    let mut i: usize = 0;
    while i < n
        invariant
            i <= n,
            n == s@.len(),
            forall|j: int| 0 <= j < i ==> glob_char_ok(#[trigger] s@[j]),
        decreases n - i,
    {
        let c = s.get_char(i);
        if c == '*' || c == '?' || c == '[' || c == ']' || c == '{' || c == '}' {
            return false;
        }
        i += 1;
    }
    true
}

/// Relies on tera::Tera::new over the glob `dir + "/**/*." + extension`:
/// loads and parses every template file the glob matches, and fails when any
/// of them is malformed. The engine's pattern handling panics on glob
/// metacharacters in the directory or the extension (and demands a `*`, which
/// the built glob always holds), so both strings are required to be plain.
/// Walking a directory that holds non-UTF-8 file names can still abort inside
/// the engine; that depends on the disk's contents, not on any argument.
#[verifier::external_body]
fn tera_from_glob(dir: &str, extension: &str) -> Result<tera::Tera, String>
    requires
        glob_literal_ok(dir@),
        glob_literal_ok(extension@),
{
    tera::Tera::new(&format!("{}/**/*.{}", dir, extension)).map_err(|e| e.to_string())
}

/// Relies on tera::Context::new: an empty rendering context.
#[verifier::external_body]
fn tera_context_new() -> tera::Context {
    tera::Context::new()
}

/// Relies on tera::Context::insert: binds a key to a value for rendering.
#[verifier::external_body]
fn tera_context_insert(ctx: &mut tera::Context, key: &str, value: &serde_json::Value) {
    ctx.insert(key, value)
}

/// Relies on tera::Tera::render: renders a loaded template under a context.
#[verifier::external_body]
fn tera_render(t: &tera::Tera, name: &str, ctx: &tera::Context) -> Result<String, String> {
    t.render(name, ctx).map_err(|e| e.to_string())
}

/// Relies on serde_json::Value::as_object: the fields of a JSON object, in
/// the object's own order.
#[verifier::external_body]
fn json_object_entries(v: &serde_json::Value) -> Option<Vec<(String, serde_json::Value)>> {
    v.as_object().map(|m| m.iter().map(|(k, x)| (k.clone(), x.clone())).collect())
}

/// The rendering engine for one template directory.
pub struct TemplateEngine {
    tera: tera::Tera,
}

impl TemplateEngine {
    /// Loads every template under the configured directory. A disabled
    /// section is refused outright — the capability is decided by the
    /// configuration, not silently ignored. Then a missing directory is
    /// rejected, then a directory or extension the glob walker could not
    /// take as plain text; a malformed template surfaces as a template error.
    pub fn new(config: &TemplateConfig) -> (r: Result<Self, Error>)
        ensures
            !config.enabled ==> r == Result::<Self, Error>::Err(
                Error::Config(ConfigError::TemplatesDisabled),
            ),
            r == Result::<Self, Error>::Err(Error::Config(ConfigError::TemplatesDisabled))
                ==> !config.enabled,
            r is Err ==> (r->Err_0 == Error::Config(ConfigError::TemplatesDisabled) || r->Err_0
                == Error::Config(ConfigError::TemplateDirMissing(config.dir)) || r->Err_0
                == Error::Config(ConfigError::InvalidField(config.dir)) || r->Err_0
                == Error::Config(ConfigError::InvalidField(config.extension)) || (
            r->Err_0 matches Error::Template(_))),
            config.enabled && (!glob_literal_ok(config.dir@) || !glob_literal_ok(
                config.extension@,
            )) ==> r is Err,
            match r {
                Err(Error::Config(ConfigError::InvalidField(p))) => (p == config.dir
                    && !glob_literal_ok(config.dir@)) || (p == config.extension
                    && !glob_literal_ok(config.extension@)),
                _ => true,
            },
            match r {
                Err(Error::Config(ConfigError::TemplateDirMissing(d))) => config.enabled && d
                    == config.dir,
                _ => true,
            },
    {
        if !config.enabled {
            return Err(Error::Config(ConfigError::TemplatesDisabled));
        }
        if !path_exists(config.dir.as_str()) {
            return Err(Error::Config(ConfigError::TemplateDirMissing(config.dir.clone())));
        }
        if !glob_literal(config.dir.as_str()) {
            return Err(Error::Config(ConfigError::InvalidField(config.dir.clone())));
        }
        if !glob_literal(config.extension.as_str()) {
            return Err(Error::Config(ConfigError::InvalidField(config.extension.clone())));
        }
        match tera_from_glob(config.dir.as_str(), config.extension.as_str()) {
            Ok(tera) => Ok(TemplateEngine { tera }),
            Err(m) => Err(Error::Template(m)),
        }
    }

    /// Renders a template under the given key/value bindings, applied in
    /// order.
    pub fn render_with_context(
        &self,
        template_name: &str,
        context: &Vec<(String, serde_json::Value)>,
    ) -> (r: Result<String, Error>)
        ensures
            r is Err ==> r->Err_0 is Template,
    {
        let mut ctx = tera_context_new();
        let mut i: usize = 0;
        while i < context.len()
            decreases context@.len() - i,
        {
            let pair = &context[i];
            tera_context_insert(&mut ctx, pair.0.as_str(), &pair.1);
            i += 1;
        }
        match tera_render(&self.tera, template_name, &ctx) {
            Ok(html) => Ok(html),
            Err(m) => Err(Error::Template(m)),
        }
    }

    /// Renders a template under a JSON value: an object binds its fields,
    /// any other value binds nothing.
    pub fn render(&self, template_name: &str, context: &serde_json::Value) -> (r: Result<
        String,
        Error,
    >)
        ensures
            r is Err ==> r->Err_0 is Template,
    {
        match json_object_entries(context) {
            Some(entries) => self.render_with_context(template_name, &entries),
            None => {
                let empty: Vec<(String, serde_json::Value)> = Vec::new();
                self.render_with_context(template_name, &empty)
            },
        }
    }

    /// Relies on tera::Tera::get_template_names: the names of every loaded
    /// template.
    #[verifier::external_body]
    pub fn get_template_names(&self) -> Vec<String> {
        self.tera.get_template_names().map(|s| s.to_string()).collect()
    }
}

} // verus!
