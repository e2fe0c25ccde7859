//! The typed settings tree and its validation rules.

use vstd::prelude::*;

use crate::error::{ConfigError, Error};
use crate::ext::{path_exists, str_eq};

verus! {

/// Whether the server is a pure API backend or also renders templates.
#[derive(Debug, Clone, Copy, PartialEq, Eq, Structural)]
pub enum ArchitectureType {
    /// Pure JSON backend; no server-side rendering.
    Api,
    /// Adds server-rendered templating on top of the API.
    Full,
}

/// Bind address, port and architecture of the server.
#[derive(Debug, Clone)]
pub struct ServerConfig {
    pub host: String,
    pub port: u16,
    pub architecture: ArchitectureType,
}

/// Cross-origin resource sharing settings. The string `"*"` in `origins` or
/// `headers` is a sentinel meaning "allow any"; if present it wins over the
/// rest of the list.
#[derive(Debug, Clone)]
pub struct CorsConfig {
    pub enabled: bool,
    pub origins: Vec<String>,
    pub methods: Vec<String>,
    pub headers: Vec<String>,
}

/// Token-authentication settings.
#[derive(Debug, Clone)]
pub struct JwtConfig {
    pub enabled: bool,
    pub secret: String,
    pub expires_in: u64,
}

/// Static-file serving settings.
#[derive(Debug, Clone)]
pub struct StaticConfig {
    pub enabled: bool,
    pub dir: String,
    pub prefix: String,
}

/// Template-rendering settings.
#[derive(Debug, Clone)]
pub struct TemplateConfig {
    pub enabled: bool,
    pub dir: String,
    pub extension: String,
}

/// Logging settings.
#[derive(Debug, Clone)]
pub struct LogConfig {
    pub level: String,
    pub requests: bool,
}

/// All middleware sections plus free-form caller extensions, kept in
/// insertion order with unique keys.
#[derive(Debug, Clone)]
pub struct MiddlewareConfig {
    pub cors: CorsConfig,
    pub jwt: JwtConfig,
    pub static_files: StaticConfig,
    pub templates: TemplateConfig,
    pub logging: LogConfig,
    pub custom: Vec<(String, serde_json::Value)>,
}

/// The root configuration: owned by the builder until `build`, frozen after.
#[derive(Debug, Clone)]
pub struct Config {
    pub server: ServerConfig,
    pub middleware: MiddlewareConfig,
}

pub open spec fn server_config_default(c: ServerConfig) -> bool {
    &&& c.host@ == "0.0.0.0"@
    &&& c.port == 3000
    &&& c.architecture is Api
}

pub open spec fn cors_config_default(c: CorsConfig) -> bool {
    &&& c.enabled
    &&& c.origins@.len() == 1 && c.origins@[0]@ == "*"@
    &&& c.methods@.len() == 6
    &&& c.methods@[0]@ == "GET"@
    &&& c.methods@[1]@ == "POST"@
    &&& c.methods@[2]@ == "PUT"@
    &&& c.methods@[3]@ == "DELETE"@
    &&& c.methods@[4]@ == "PATCH"@
    &&& c.methods@[5]@ == "OPTIONS"@
    &&& c.headers@.len() == 1 && c.headers@[0]@ == "*"@
}

pub open spec fn jwt_config_default(c: JwtConfig) -> bool {
    &&& !c.enabled
    &&& c.secret@ == "your-secret-key-change-this-in-production"@
    &&& c.expires_in == 3600
}

pub open spec fn static_config_default(c: StaticConfig) -> bool {
    &&& !c.enabled
    &&& c.dir@ == "static"@
    &&& c.prefix@ == "/static"@
}

pub open spec fn template_config_default(c: TemplateConfig) -> bool {
    &&& !c.enabled
    &&& c.dir@ == "templates"@
    &&& c.extension@ == "html"@
}

pub open spec fn log_config_default(c: LogConfig) -> bool {
    &&& c.level@ == "info"@
    &&& c.requests
}

pub open spec fn middleware_config_default(c: MiddlewareConfig) -> bool {
    &&& cors_config_default(c.cors)
    &&& jwt_config_default(c.jwt)
    &&& static_config_default(c.static_files)
    &&& template_config_default(c.templates)
    &&& log_config_default(c.logging)
    &&& c.custom@.len() == 0
}

pub open spec fn config_default(c: Config) -> bool {
    server_config_default(c.server) && middleware_config_default(c.middleware)
}

impl Default for ArchitectureType {
    fn default() -> (r: Self)
        ensures
            r is Api,
    {
        ArchitectureType::Api
    }
}

impl Default for ServerConfig {
    fn default() -> (r: Self)
        ensures
            server_config_default(r),
    {
        ServerConfig { host: String::from_str("0.0.0.0"), port: 3000, architecture: ArchitectureType::Api }
    }
}

impl Default for CorsConfig {
    fn default() -> (r: Self)
        ensures
            cors_config_default(r),
    {
        let mut origins: Vec<String> = Vec::new();
        origins.push(String::from_str("*"));
        let mut methods: Vec<String> = Vec::new();
        methods.push(String::from_str("GET"));
        methods.push(String::from_str("POST"));
        methods.push(String::from_str("PUT"));
        methods.push(String::from_str("DELETE"));
        methods.push(String::from_str("PATCH"));
        methods.push(String::from_str("OPTIONS"));
        let mut headers: Vec<String> = Vec::new();
        headers.push(String::from_str("*"));
        CorsConfig { enabled: true, origins, methods, headers }
    }
}

impl Default for JwtConfig {
    fn default() -> (r: Self)
        ensures
            jwt_config_default(r),
    {
        JwtConfig {
            enabled: false,
            secret: String::from_str("your-secret-key-change-this-in-production"),
            expires_in: 3600,
        }
    }
}

impl Default for StaticConfig {
    fn default() -> (r: Self)
        ensures
            static_config_default(r),
    {
        StaticConfig {
            enabled: false,
            dir: String::from_str("static"),
            prefix: String::from_str("/static"),
        }
    }
}

impl Default for TemplateConfig {
    fn default() -> (r: Self)
        ensures
            template_config_default(r),
    {
        TemplateConfig {
            enabled: false,
            dir: String::from_str("templates"),
            extension: String::from_str("html"),
        }
    }
}

impl Default for LogConfig {
    fn default() -> (r: Self)
        ensures
            log_config_default(r),
    {
        LogConfig { level: String::from_str("info"), requests: true }
    }
}

impl Default for MiddlewareConfig {
    fn default() -> (r: Self)
        ensures
            middleware_config_default(r),
    {
        MiddlewareConfig {
            cors: CorsConfig::default(),
            jwt: JwtConfig::default(),
            static_files: StaticConfig::default(),
            templates: TemplateConfig::default(),
            logging: LogConfig::default(),
            custom: Vec::new(),
        }
    }
}

impl Default for Config {
    fn default() -> (r: Self)
        ensures
            config_default(r),
    {
        Config { server: ServerConfig::default(), middleware: MiddlewareConfig::default() }
    }
}

/// The character for one decimal digit.
pub open spec fn digit_char(d: nat) -> char {
    if d == 0 {
        '0'
    } else if d == 1 {
        '1'
    } else if d == 2 {
        '2'
    } else if d == 3 {
        '3'
    } else if d == 4 {
        '4'
    } else if d == 5 {
        '5'
    } else if d == 6 {
        '6'
    } else if d == 7 {
        '7'
    } else if d == 8 {
        '8'
    } else {
        '9'
    }
}

/// The decimal notation of a number, most significant digit first.
pub open spec fn dec_digits(n: nat) -> Seq<char>
    decreases n,
{
    if n < 10 {
        seq![digit_char(n)]
    } else {
        dec_digits(n / 10).push(digit_char(n % 10))
    }
}

fn digit_str(d: u16) -> (r: &'static str)
    requires
        d < 10,
    ensures
        r@ == seq![digit_char(d as nat)],
{
    if d == 0 {
        proof {
            reveal_strlit("0");
            assert("0"@ =~= seq![digit_char(0)]);
        }
        "0"
    } else if d == 1 {
        proof {
            reveal_strlit("1");
            assert("1"@ =~= seq![digit_char(1)]);
        }
        "1"
    } else if d == 2 {
        proof {
            reveal_strlit("2");
            assert("2"@ =~= seq![digit_char(2)]);
        }
        "2"
    } else if d == 3 {
        proof {
            reveal_strlit("3");
            assert("3"@ =~= seq![digit_char(3)]);
        }
        "3"
    } else if d == 4 {
        proof {
            reveal_strlit("4");
            assert("4"@ =~= seq![digit_char(4)]);
        }
        "4"
    } else if d == 5 {
        proof {
            reveal_strlit("5");
            assert("5"@ =~= seq![digit_char(5)]);
        }
        "5"
    } else if d == 6 {
        proof {
            reveal_strlit("6");
            assert("6"@ =~= seq![digit_char(6)]);
        }
        "6"
    } else if d == 7 {
        proof {
            reveal_strlit("7");
            assert("7"@ =~= seq![digit_char(7)]);
        }
        "7"
    } else if d == 8 {
        proof {
            reveal_strlit("8");
            assert("8"@ =~= seq![digit_char(8)]);
        }
        "8"
    } else {
        proof {
            reveal_strlit("9");
            assert("9"@ =~= seq![digit_char(9)]);
        }
        "9"
    }
}

/// The decimal notation of a port number.
pub fn u16_digits(n: u16) -> (r: String)
    ensures
        r@ == dec_digits(n as nat),
    decreases n,
{
    if n < 10 {
        String::from_str(digit_str(n))
    } else {
        let mut s = u16_digits(n / 10);
        s.append(digit_str(n % 10));
        s
    }
}

/// The `"host:port"` form of a server address.
pub open spec fn address_spec(host: Seq<char>, port: u16) -> Seq<char> {
    host + seq![':'] + dec_digits(port as nat)
}

/// The outcome of validation once the two directory checks are known:
/// checks run in order and stop at the first failure.
pub open spec fn validate_with_spec(
    c: Config,
    static_dir_exists: bool,
    template_dir_exists: bool,
) -> Result<(), Error> {
    if c.server.port == 0 {
        Result::Err(Error::Config(ConfigError::ZeroPort))
    } else if c.middleware.templates.enabled && c.server.architecture is Api {
        Result::Err(Error::Config(ConfigError::TemplatesRequireFullArchitecture))
    } else if c.middleware.static_files.enabled && !static_dir_exists {
        Result::Err(Error::Config(ConfigError::StaticDirMissing(c.middleware.static_files.dir)))
    } else if c.middleware.templates.enabled && !template_dir_exists {
        Result::Err(Error::Config(ConfigError::TemplateDirMissing(c.middleware.templates.dir)))
    } else {
        Result::Ok(())
    }
}

impl Config {
    /// The `"host:port"` address the server will bind to.
    pub fn server_address(&self) -> (r: String)
        ensures
            r@ == address_spec(self.server.host@, self.server.port),
    {
        let mut s = self.server.host.clone();
        s.append(":");
        let p = u16_digits(self.server.port);
        s.append(p.as_str());
        proof {
            reveal_strlit(":");
            assert(":"@ =~= seq![':']);
        }
        s
    }

    /// The pure core of validation: both filesystem answers are arguments,
    /// so the verdict is pinned down exactly for every combination.
    pub fn validate_with(&self, static_dir_exists: bool, template_dir_exists: bool) -> (r: Result<
        (),
        Error,
    >)
        ensures
            r == validate_with_spec(*self, static_dir_exists, template_dir_exists),
    {
        if self.server.port == 0 {
            Err(Error::Config(ConfigError::ZeroPort))
        } else if self.middleware.templates.enabled && self.server.architecture
            == ArchitectureType::Api {
            Err(Error::Config(ConfigError::TemplatesRequireFullArchitecture))
        } else if self.middleware.static_files.enabled && !static_dir_exists {
            Err(Error::Config(ConfigError::StaticDirMissing(self.middleware.static_files.dir.clone())))
        } else if self.middleware.templates.enabled && !template_dir_exists {
            Err(Error::Config(ConfigError::TemplateDirMissing(self.middleware.templates.dir.clone())))
        } else {
            Ok(())
        }
    }

    /// Validates the configuration: port, architecture/template agreement,
    /// then existence of the static-file and template directories.
    ///
    /// The two directory checks ask the filesystem, so only the checks that
    /// do not depend on it are pinned down both ways.
    pub fn validate(&self) -> (r: Result<(), Error>)
        ensures
            r is Ok ==> self.server.port != 0,
            r is Ok ==> !(self.middleware.templates.enabled && self.server.architecture is Api),
            self.server.port == 0 ==> r == Result::<(), Error>::Err(
                Error::Config(ConfigError::ZeroPort),
            ),
            self.server.port != 0 && self.middleware.templates.enabled
                && self.server.architecture is Api ==> r == Result::<(), Error>::Err(
                Error::Config(ConfigError::TemplatesRequireFullArchitecture),
            ),
            self.server.port != 0 && !self.middleware.templates.enabled
                && !self.middleware.static_files.enabled ==> r is Ok,
            r is Err ==> r->Err_0 is Config,
            exists|static_dir_exists: bool, template_dir_exists: bool|
                r == #[trigger] validate_with_spec(*self, static_dir_exists, template_dir_exists),
    {
        let static_dir_exists = path_exists(self.middleware.static_files.dir.as_str());
        let template_dir_exists = path_exists(self.middleware.templates.dir.as_str());
        self.validate_with(static_dir_exists, template_dir_exists)
    }
}


/// Whether the document text parses as a TOML table; the answer depends on
/// the text alone.
pub uninterp spec fn toml_table_source_ok(s: Seq<char>) -> bool;

/// Relies on toml::from_str into toml::Table: parses the document text; a
/// rejected document's message is carried.
#[verifier::external_body]
fn parse_toml_table(s: &str) -> (r: Result<toml::Table, String>)
    ensures
        r is Ok <==> toml_table_source_ok(s@),
{
    toml::from_str::<toml::Table>(s).map_err(|e| e.to_string())
}

/// Relies on toml::map::Map::iter: the table's entries, in the table's own
/// order.
#[verifier::external_body]
fn table_entries(t: &toml::Table) -> Vec<(String, toml::Value)> {
    t.iter().map(|(k, v)| (k.clone(), v.clone())).collect()
}

/// A parsed settings document as plain values: the shapes the schema reads
/// are carried openly, anything else (floats, datetimes) opaquely.
#[derive(Debug)]
pub enum TomlNode {
    Str(String),
    Int(i64),
    Bool(bool),
    Arr(Vec<TomlNode>),
    Tbl(Vec<(String, TomlNode)>),
    Opaque(toml::Value),
}

/// A node whose JSON re-encoding cannot fail.
pub open spec fn simple_node(n: TomlNode) -> bool {
    n is Str || n is Int || n is Bool
}

/// Relies on toml::Value's variants: carries each payload over one for one,
/// keeping the document's own order of keys and elements.
#[verifier::external_body]
fn node_from_toml(v: &toml::Value) -> TomlNode {
    match v {
        toml::Value::String(s) => TomlNode::Str(s.clone()),
        toml::Value::Integer(i) => TomlNode::Int(*i),
        toml::Value::Boolean(b) => TomlNode::Bool(*b),
        toml::Value::Array(a) => TomlNode::Arr(a.iter().map(node_from_toml).collect()),
        toml::Value::Table(t) => TomlNode::Tbl(
            t.iter().map(|(k, x)| (k.clone(), node_from_toml(x))).collect(),
        ),
        other => TomlNode::Opaque(other.clone()),
    }
}

/// Relies on serde_json's value constructors, and on serde_json::to_value for
/// the opaque shapes: re-encodes a document node as the JSON value the
/// extension map holds. The plain constructors cannot fail, so a simple node
/// always converts.
#[verifier::external_body]
fn json_from_node(n: &TomlNode) -> (r: Option<serde_json::Value>)
    ensures
        simple_node(*n) ==> r is Some,
{
    match n {
        TomlNode::Str(s) => Some(serde_json::Value::String(s.clone())),
        TomlNode::Int(i) => Some(serde_json::Value::from(*i)),
        TomlNode::Bool(b) => Some(serde_json::Value::Bool(*b)),
        TomlNode::Arr(a) => a.iter().map(json_from_node).collect::<Option<Vec<_>>>().map(
            serde_json::Value::Array,
        ),
        TomlNode::Tbl(t) => t.iter().map(|(k, x)| json_from_node(x).map(|j| (k.clone(), j)))
            .collect::<Option<serde_json::Map<_, _>>>().map(serde_json::Value::Object),
        TomlNode::Opaque(v) => serde_json::to_value(v).ok(),
    }
}

/// The value under the first entry whose key reads as `key`, if any.
pub open spec fn node_lookup(entries: Seq<(String, TomlNode)>, key: Seq<char>) -> Option<TomlNode>
    decreases entries.len(),
{
    if entries.len() == 0 {
        None
    } else if entries[0].0@ == key {
        Some(entries[0].1)
    } else {
        node_lookup(entries.drop_first(), key)
    }
}

proof fn lemma_node_lookup_at(entries: Seq<(String, TomlNode)>, key: Seq<char>, i: int)
    requires
        0 <= i < entries.len(),
        forall|j: int| 0 <= j < i ==> entries[j].0@ != key,
        entries[i].0@ == key,
    ensures
        node_lookup(entries, key) == Some(entries[i].1),
    decreases i,
{
    if i == 0 {
    } else {
        assert(forall|j: int| 0 <= j < i - 1 ==> entries.drop_first()[j].0@ != key);
        assert(entries.drop_first()[i - 1] == entries[i]);
        lemma_node_lookup_at(entries.drop_first(), key, i - 1);
    }
}

proof fn lemma_node_lookup_none(entries: Seq<(String, TomlNode)>, key: Seq<char>)
    requires
        forall|j: int| 0 <= j < entries.len() ==> entries[j].0@ != key,
    ensures
        node_lookup(entries, key) is None,
    decreases entries.len(),
{
    if entries.len() > 0 {
        assert(forall|j: int|
            0 <= j < entries.drop_first().len() ==> entries.drop_first()[j].0@ != key);
        lemma_node_lookup_none(entries.drop_first(), key);
    }
}

/// The string under a key, if that key holds a string.
pub open spec fn str_field(entries: Seq<(String, TomlNode)>, key: Seq<char>) -> Option<String> {
    match node_lookup(entries, key) {
        Some(TomlNode::Str(s)) => Some(s),
        _ => None,
    }
}

/// The integer under a key, if that key holds an integer.
pub open spec fn int_field(entries: Seq<(String, TomlNode)>, key: Seq<char>) -> Option<i64> {
    match node_lookup(entries, key) {
        Some(TomlNode::Int(i)) => Some(i),
        _ => None,
    }
}

/// The boolean under a key, if that key holds a boolean.
pub open spec fn bool_field(entries: Seq<(String, TomlNode)>, key: Seq<char>) -> Option<bool> {
    match node_lookup(entries, key) {
        Some(TomlNode::Bool(b)) => Some(b),
        _ => None,
    }
}

/// The sub-table under a key, if that key holds a table.
pub open spec fn tbl_field(entries: Seq<(String, TomlNode)>, key: Seq<char>) -> Option<
    Seq<(String, TomlNode)>,
> {
    match node_lookup(entries, key) {
        Some(TomlNode::Tbl(v)) => Some(v@),
        _ => None,
    }
}

/// The array under a key, if that key holds an array.
pub open spec fn arr_field(entries: Seq<(String, TomlNode)>, key: Seq<char>) -> Option<
    Seq<TomlNode>,
> {
    match node_lookup(entries, key) {
        Some(TomlNode::Arr(v)) => Some(v@),
        _ => None,
    }
}

/// The strings of an all-string node sequence, in order.
pub open spec fn str_seq_of(nodes: Seq<TomlNode>) -> Option<Seq<String>>
    decreases nodes.len(),
{
    if nodes.len() == 0 {
        Some(Seq::empty())
    } else {
        match nodes[0] {
            TomlNode::Str(s) => match str_seq_of(nodes.drop_first()) {
                Some(rest) => Some(seq![s] + rest),
                None => None,
            },
            _ => None,
        }
    }
}

/// The string list under a key, if that key holds an all-string array.
pub open spec fn str_list_field(entries: Seq<(String, TomlNode)>, key: Seq<char>) -> Option<
    Seq<String>,
> {
    match arr_field(entries, key) {
        Some(nodes) => str_seq_of(nodes),
        None => None,
    }
}

proof fn lemma_str_seq_snoc(nodes: Seq<TomlNode>, x: String)
    ensures
        match str_seq_of(nodes) {
            Some(r0) => str_seq_of(nodes.push(TomlNode::Str(x))) == Some(r0.push(x)),
            None => str_seq_of(nodes.push(TomlNode::Str(x))) is None,
        },
    decreases nodes.len(),
{
    let p = nodes.push(TomlNode::Str(x));
    if nodes.len() == 0 {
        assert(p[0] == TomlNode::Str(x));
        assert(p.drop_first() =~= Seq::<TomlNode>::empty());
        assert(str_seq_of(p.drop_first()) == Some(Seq::<String>::empty()));
        assert(str_seq_of(p) == Some(seq![x] + Seq::<String>::empty()));
        assert(seq![x] + Seq::<String>::empty() =~= Seq::<String>::empty().push(x));
    } else {
        assert(p[0] == nodes[0]);
        assert(p.drop_first() =~= nodes.drop_first().push(TomlNode::Str(x)));
        match nodes[0] {
            TomlNode::Str(s) => {
                lemma_str_seq_snoc(nodes.drop_first(), x);
                match str_seq_of(nodes.drop_first()) {
                    Some(rest) => {
                        assert(seq![s] + rest.push(x) =~= (seq![s] + rest).push(x));
                    },
                    None => {},
                }
            },
            _ => {},
        }
    }
}

proof fn lemma_str_seq_none(nodes: Seq<TomlNode>, j: int)
    requires
        0 <= j < nodes.len(),
        !(nodes[j] is Str),
    ensures
        str_seq_of(nodes) is None,
    decreases j,
{
    if j == 0 {
    } else {
        assert(nodes.drop_first()[j - 1] == nodes[j]);
        lemma_str_seq_none(nodes.drop_first(), j - 1);
    }
}

/// The entry holding `key`, if any.
fn node_get<'a>(entries: &'a Vec<(String, TomlNode)>, key: &str) -> (r: Option<&'a TomlNode>)
    ensures
        match r {
            Some(n) => node_lookup(entries@, key@) == Some(*n),
            None => node_lookup(entries@, key@) is None,
        },
{
    let mut i: usize = 0;
    while i < entries.len()
        invariant
            i <= entries@.len(),
            forall|j: int| 0 <= j < i ==> entries@[j].0@ != key@,
        decreases entries@.len() - i,
    {
        if str_eq(entries[i].0.as_str(), key) {
            proof {
                lemma_node_lookup_at(entries@, key@, i as int);
            }
            return Some(&entries[i].1);
        }
        i += 1;
    }
    proof {
        lemma_node_lookup_none(entries@, key@);
    }
    None
}

fn get_str_field(entries: &Vec<(String, TomlNode)>, key: &str, path: &str) -> (r: Result<
    String,
    Error,
>)
    ensures
        match r {
            Ok(s) => str_field(entries@, key@) == Some(s),
            Err(Error::Config(ConfigError::MissingField(p))) => p@ == path@ && node_lookup(
                entries@,
                key@,
            ) is None,
            Err(Error::Config(ConfigError::InvalidField(p))) => p@ == path@ && node_lookup(
                entries@,
                key@,
            ) is Some && str_field(entries@, key@) is None,
            _ => false,
        },
{
    match node_get(entries, key) {
        None => Err(Error::Config(ConfigError::MissingField(String::from_str(path)))),
        Some(node) => match node {
            TomlNode::Str(s) => Ok(s.clone()),
            _ => Err(Error::Config(ConfigError::InvalidField(String::from_str(path)))),
        },
    }
}

fn get_int_field(entries: &Vec<(String, TomlNode)>, key: &str, path: &str) -> (r: Result<
    i64,
    Error,
>)
    ensures
        match r {
            Ok(i) => int_field(entries@, key@) == Some(i),
            Err(Error::Config(ConfigError::MissingField(p))) => p@ == path@ && node_lookup(
                entries@,
                key@,
            ) is None,
            Err(Error::Config(ConfigError::InvalidField(p))) => p@ == path@ && node_lookup(
                entries@,
                key@,
            ) is Some && int_field(entries@, key@) is None,
            _ => false,
        },
{
    match node_get(entries, key) {
        None => Err(Error::Config(ConfigError::MissingField(String::from_str(path)))),
        Some(node) => match node {
            TomlNode::Int(i) => Ok(*i),
            _ => Err(Error::Config(ConfigError::InvalidField(String::from_str(path)))),
        },
    }
}

fn get_bool_field(entries: &Vec<(String, TomlNode)>, key: &str, path: &str) -> (r: Result<
    bool,
    Error,
>)
    ensures
        match r {
            Ok(b) => bool_field(entries@, key@) == Some(b),
            Err(Error::Config(ConfigError::MissingField(p))) => p@ == path@ && node_lookup(
                entries@,
                key@,
            ) is None,
            Err(Error::Config(ConfigError::InvalidField(p))) => p@ == path@ && node_lookup(
                entries@,
                key@,
            ) is Some && bool_field(entries@, key@) is None,
            _ => false,
        },
{
    match node_get(entries, key) {
        None => Err(Error::Config(ConfigError::MissingField(String::from_str(path)))),
        Some(node) => match node {
            TomlNode::Bool(b) => Ok(*b),
            _ => Err(Error::Config(ConfigError::InvalidField(String::from_str(path)))),
        },
    }
}

fn get_tbl_field<'a>(entries: &'a Vec<(String, TomlNode)>, key: &str, path: &str) -> (r: Result<
    &'a Vec<(String, TomlNode)>,
    Error,
>)
    ensures
        match r {
            Ok(v) => tbl_field(entries@, key@) == Some(v@),
            Err(Error::Config(ConfigError::MissingField(p))) => p@ == path@ && node_lookup(
                entries@,
                key@,
            ) is None,
            Err(Error::Config(ConfigError::InvalidField(p))) => p@ == path@ && node_lookup(
                entries@,
                key@,
            ) is Some && tbl_field(entries@, key@) is None,
            _ => false,
        },
{
    match node_get(entries, key) {
        None => Err(Error::Config(ConfigError::MissingField(String::from_str(path)))),
        Some(node) => match node {
            TomlNode::Tbl(v) => Ok(v),
            _ => Err(Error::Config(ConfigError::InvalidField(String::from_str(path)))),
        },
    }
}

fn get_str_list_field(entries: &Vec<(String, TomlNode)>, key: &str, path: &str) -> (r: Result<
    Vec<String>,
    Error,
>)
    ensures
        match r {
            Ok(v) => str_list_field(entries@, key@) == Some(v@),
            Err(Error::Config(ConfigError::MissingField(p))) => p@ == path@ && node_lookup(
                entries@,
                key@,
            ) is None,
            Err(Error::Config(ConfigError::InvalidField(p))) => p@ == path@ && node_lookup(
                entries@,
                key@,
            ) is Some && str_list_field(entries@, key@) is None,
            _ => false,
        },
{
    let arr = match node_get(entries, key) {
        None => {
            return Err(Error::Config(ConfigError::MissingField(String::from_str(path))));
        },
        Some(node) => match node {
            TomlNode::Arr(v) => v,
            _ => {
                return Err(Error::Config(ConfigError::InvalidField(String::from_str(path))));
            },
        },
    };
    let mut out: Vec<String> = Vec::new();
    let mut i: usize = 0;
    while i < arr.len()
        invariant
            i <= arr@.len(),
            str_seq_of(arr@.take(i as int)) == Some(out@),
            node_lookup(entries@, key@) is Some,
            arr_field(entries@, key@) == Some(arr@),
        decreases arr@.len() - i,
    {
        match &arr[i] {
            TomlNode::Str(s) => {
                proof {
                    lemma_str_seq_snoc(arr@.take(i as int), arr@[i as int]->Str_0);
                    assert(arr@.take(i as int).push(arr@[i as int]) =~= arr@.take(i + 1));
                }
                out.push(s.clone());
            },
            _ => {
                proof {
                    lemma_str_seq_none(arr@, i as int);
                    assert(str_seq_of(arr@) is None);
                    assert(str_list_field(entries@, key@) is None);
                }
                return Err(Error::Config(ConfigError::InvalidField(String::from_str(path))));
            },
        }
        i += 1;
    }
    proof {
        assert(arr@.take(arr@.len() as int) =~= arr@);
    }
    Ok(out)
}

/// The server section denotes this value: host a string, port an integer in
/// the sixteen-bit range, architecture `"api"` or `"full"`.
pub open spec fn server_matches(entries: Seq<(String, TomlNode)>, sc: ServerConfig) -> bool {
    &&& str_field(entries, "host"@) == Some(sc.host)
    &&& int_field(entries, "port"@) matches Some(p) && 0 <= p <= 65535 && sc.port == p as u16
    &&& str_field(entries, "architecture"@) matches Some(a) && ((a@ == "api"@ && sc.architecture
        is Api) || (a@ == "full"@ && sc.architecture is Full))
}

/// The server section has the right shape.
pub open spec fn server_fits(entries: Seq<(String, TomlNode)>) -> bool {
    &&& str_field(entries, "host"@) is Some
    &&& int_field(entries, "port"@) matches Some(p) && 0 <= p <= 65535
    &&& str_field(entries, "architecture"@) matches Some(a) && (a@ == "api"@ || a@ == "full"@)
}

fn server_from_doc(entries: &Vec<(String, TomlNode)>) -> (r: Result<ServerConfig, Error>)
    ensures
        match r {
            Ok(sc) => server_matches(entries@, sc),
            Err(e) => !server_fits(entries@) && ((e matches Error::Config(
                ConfigError::MissingField(_),
            )) || (e matches Error::Config(ConfigError::InvalidField(_)))),
        },
{
    let host = get_str_field(entries, "host", "server.host")?;
    let port_i = get_int_field(entries, "port", "server.port")?;
    if !(0 <= port_i && port_i <= 65535) {
        return Err(Error::Config(ConfigError::InvalidField(String::from_str("server.port"))));
    }
    let arch_name = get_str_field(entries, "architecture", "server.architecture")?;
    let architecture = if str_eq(arch_name.as_str(), "api") {
        ArchitectureType::Api
    } else if str_eq(arch_name.as_str(), "full") {
        ArchitectureType::Full
    } else {
        return Err(Error::Config(ConfigError::InvalidField(String::from_str(
            "server.architecture",
        ))));
    };
    Ok(ServerConfig { host, port: port_i as u16, architecture })
}

/// The CORS section denotes this value.
pub open spec fn cors_matches(entries: Seq<(String, TomlNode)>, c: CorsConfig) -> bool {
    &&& bool_field(entries, "enabled"@) == Some(c.enabled)
    &&& str_list_field(entries, "origins"@) == Some(c.origins@)
    &&& str_list_field(entries, "methods"@) == Some(c.methods@)
    &&& str_list_field(entries, "headers"@) == Some(c.headers@)
}

/// The CORS section has the right shape.
pub open spec fn cors_fits(entries: Seq<(String, TomlNode)>) -> bool {
    &&& bool_field(entries, "enabled"@) is Some
    &&& str_list_field(entries, "origins"@) is Some
    &&& str_list_field(entries, "methods"@) is Some
    &&& str_list_field(entries, "headers"@) is Some
}

fn cors_from_doc(entries: &Vec<(String, TomlNode)>) -> (r: Result<CorsConfig, Error>)
    ensures
        match r {
            Ok(c) => cors_matches(entries@, c),
            Err(e) => !cors_fits(entries@) && ((e matches Error::Config(
                ConfigError::MissingField(_),
            )) || (e matches Error::Config(ConfigError::InvalidField(_)))),
        },
{
    let enabled = get_bool_field(entries, "enabled", "middleware.cors.enabled")?;
    let origins = get_str_list_field(entries, "origins", "middleware.cors.origins")?;
    let methods = get_str_list_field(entries, "methods", "middleware.cors.methods")?;
    let headers = get_str_list_field(entries, "headers", "middleware.cors.headers")?;
    Ok(CorsConfig { enabled, origins, methods, headers })
}

/// The token section denotes this value: the lifetime is a non-negative
/// integer.
pub open spec fn jwt_matches(entries: Seq<(String, TomlNode)>, c: JwtConfig) -> bool {
    &&& bool_field(entries, "enabled"@) == Some(c.enabled)
    &&& str_field(entries, "secret"@) == Some(c.secret)
    &&& int_field(entries, "expires_in"@) matches Some(i) && i >= 0 && c.expires_in == i as u64
}

/// The token section has the right shape.
pub open spec fn jwt_fits(entries: Seq<(String, TomlNode)>) -> bool {
    &&& bool_field(entries, "enabled"@) is Some
    &&& str_field(entries, "secret"@) is Some
    &&& int_field(entries, "expires_in"@) matches Some(i) && i >= 0
}

fn jwt_from_doc(entries: &Vec<(String, TomlNode)>) -> (r: Result<JwtConfig, Error>)
    ensures
        match r {
            Ok(c) => jwt_matches(entries@, c),
            Err(e) => !jwt_fits(entries@) && ((e matches Error::Config(
                ConfigError::MissingField(_),
            )) || (e matches Error::Config(ConfigError::InvalidField(_)))),
        },
{
    let enabled = get_bool_field(entries, "enabled", "middleware.jwt.enabled")?;
    let secret = get_str_field(entries, "secret", "middleware.jwt.secret")?;
    let expires_i = get_int_field(entries, "expires_in", "middleware.jwt.expires_in")?;
    if expires_i < 0 {
        return Err(Error::Config(ConfigError::InvalidField(String::from_str(
            "middleware.jwt.expires_in",
        ))));
    }
    Ok(JwtConfig { enabled, secret, expires_in: expires_i as u64 })
}

/// The static-file section denotes this value.
pub open spec fn static_matches(entries: Seq<(String, TomlNode)>, c: StaticConfig) -> bool {
    &&& bool_field(entries, "enabled"@) == Some(c.enabled)
    &&& str_field(entries, "dir"@) == Some(c.dir)
    &&& str_field(entries, "prefix"@) == Some(c.prefix)
}

/// The static-file section has the right shape.
pub open spec fn static_fits(entries: Seq<(String, TomlNode)>) -> bool {
    &&& bool_field(entries, "enabled"@) is Some
    &&& str_field(entries, "dir"@) is Some
    &&& str_field(entries, "prefix"@) is Some
}

fn static_from_doc(entries: &Vec<(String, TomlNode)>) -> (r: Result<StaticConfig, Error>)
    ensures
        match r {
            Ok(c) => static_matches(entries@, c),
            Err(e) => !static_fits(entries@) && ((e matches Error::Config(
                ConfigError::MissingField(_),
            )) || (e matches Error::Config(ConfigError::InvalidField(_)))),
        },
{
    let enabled = get_bool_field(entries, "enabled", "middleware.static_files.enabled")?;
    let dir = get_str_field(entries, "dir", "middleware.static_files.dir")?;
    let prefix = get_str_field(entries, "prefix", "middleware.static_files.prefix")?;
    Ok(StaticConfig { enabled, dir, prefix })
}

/// The template section denotes this value.
pub open spec fn templates_matches(entries: Seq<(String, TomlNode)>, c: TemplateConfig) -> bool {
    &&& bool_field(entries, "enabled"@) == Some(c.enabled)
    &&& str_field(entries, "dir"@) == Some(c.dir)
    &&& str_field(entries, "extension"@) == Some(c.extension)
}

/// The template section has the right shape.
pub open spec fn templates_fits(entries: Seq<(String, TomlNode)>) -> bool {
    &&& bool_field(entries, "enabled"@) is Some
    &&& str_field(entries, "dir"@) is Some
    &&& str_field(entries, "extension"@) is Some
}

fn templates_from_doc(entries: &Vec<(String, TomlNode)>) -> (r: Result<TemplateConfig, Error>)
    ensures
        match r {
            Ok(c) => templates_matches(entries@, c),
            Err(e) => !templates_fits(entries@) && ((e matches Error::Config(
                ConfigError::MissingField(_),
            )) || (e matches Error::Config(ConfigError::InvalidField(_)))),
        },
{
    let enabled = get_bool_field(entries, "enabled", "middleware.templates.enabled")?;
    let dir = get_str_field(entries, "dir", "middleware.templates.dir")?;
    let extension = get_str_field(entries, "extension", "middleware.templates.extension")?;
    Ok(TemplateConfig { enabled, dir, extension })
}

/// The logging section denotes this value.
pub open spec fn logging_matches(entries: Seq<(String, TomlNode)>, c: LogConfig) -> bool {
    &&& str_field(entries, "level"@) == Some(c.level)
    &&& bool_field(entries, "requests"@) == Some(c.requests)
}

/// The logging section has the right shape.
pub open spec fn logging_fits(entries: Seq<(String, TomlNode)>) -> bool {
    &&& str_field(entries, "level"@) is Some
    &&& bool_field(entries, "requests"@) is Some
}

fn logging_from_doc(entries: &Vec<(String, TomlNode)>) -> (r: Result<LogConfig, Error>)
    ensures
        match r {
            Ok(c) => logging_matches(entries@, c),
            Err(e) => !logging_fits(entries@) && ((e matches Error::Config(
                ConfigError::MissingField(_),
            )) || (e matches Error::Config(ConfigError::InvalidField(_)))),
        },
{
    let level = get_str_field(entries, "level", "middleware.logging.level")?;
    let requests = get_bool_field(entries, "requests", "middleware.logging.requests")?;
    Ok(LogConfig { level, requests })
}

/// The extension map keeps the custom section's keys, in order; the JSON
/// values come from a trusted re-encoding, so only the keys are pinned.
pub open spec fn custom_keys_match(
    ce: Seq<(String, TomlNode)>,
    cu: Seq<(String, serde_json::Value)>,
) -> bool {
    cu.len() == ce.len() && forall|i: int| 0 <= i < ce.len() ==> cu[i].0 == ce[i].0
}

/// Every custom value is a shape whose re-encoding cannot fail.
pub open spec fn custom_all_simple(ce: Seq<(String, TomlNode)>) -> bool {
    forall|i: int| 0 <= i < ce.len() ==> simple_node(#[trigger] ce[i].1)
}

fn custom_from_doc(centries: &Vec<(String, TomlNode)>) -> (r: Result<
    Vec<(String, serde_json::Value)>,
    Error,
>)
    ensures
        match r {
            Ok(v) => custom_keys_match(centries@, v@),
            Err(e) => e matches Error::Config(ConfigError::InvalidField(_)),
        },
        custom_all_simple(centries@) ==> r is Ok,
{
    let mut out: Vec<(String, serde_json::Value)> = Vec::new();
    let mut i: usize = 0;
    while i < centries.len()
        invariant
            i <= centries@.len(),
            out@.len() == i,
            forall|j: int| 0 <= j < i ==> out@[j].0 == centries@[j].0,
        decreases centries@.len() - i,
    {
        let pair = &centries[i];
        match json_from_node(&pair.1) {
            Some(v) => out.push((pair.0.clone(), v)),
            None => {
                return Err(Error::Config(ConfigError::InvalidField(String::from_str(
                    "middleware.custom",
                ))));
            },
        }
        i += 1;
    }
    Ok(out)
}

/// The middleware table denotes this value: every section present and of the
/// right shape, the extension keys kept.
pub open spec fn middleware_yields(mw: Seq<(String, TomlNode)>, m: MiddlewareConfig) -> bool {
    &&& tbl_field(mw, "cors"@) matches Some(e) && cors_matches(e, m.cors)
    &&& tbl_field(mw, "jwt"@) matches Some(e) && jwt_matches(e, m.jwt)
    &&& tbl_field(mw, "static_files"@) matches Some(e) && static_matches(e, m.static_files)
    &&& tbl_field(mw, "templates"@) matches Some(e) && templates_matches(e, m.templates)
    &&& tbl_field(mw, "logging"@) matches Some(e) && logging_matches(e, m.logging)
    &&& tbl_field(mw, "custom"@) matches Some(ce) && custom_keys_match(ce, m.custom@)
}

/// The middleware table has the right shape.
pub open spec fn middleware_fits(mw: Seq<(String, TomlNode)>) -> bool {
    &&& tbl_field(mw, "cors"@) matches Some(e) && cors_fits(e)
    &&& tbl_field(mw, "jwt"@) matches Some(e) && jwt_fits(e)
    &&& tbl_field(mw, "static_files"@) matches Some(e) && static_fits(e)
    &&& tbl_field(mw, "templates"@) matches Some(e) && templates_fits(e)
    &&& tbl_field(mw, "logging"@) matches Some(e) && logging_fits(e)
    &&& tbl_field(mw, "custom"@) is Some
}

/// The whole document denotes this configuration.
pub open spec fn doc_yields(doc: TomlNode, c: Config) -> bool {
    &&& doc matches TomlNode::Tbl(top)
    &&& tbl_field(top@, "server"@) matches Some(se) && server_matches(se, c.server)
    &&& tbl_field(top@, "middleware"@) matches Some(mw) && middleware_yields(mw, c.middleware)
}

/// The whole document fits the schema.
pub open spec fn doc_fits(doc: TomlNode) -> bool {
    &&& doc matches TomlNode::Tbl(top)
    &&& tbl_field(top@, "server"@) matches Some(se) && server_fits(se)
    &&& tbl_field(top@, "middleware"@) matches Some(mw) && middleware_fits(mw)
}

/// Every custom value of the document is a shape whose re-encoding cannot
/// fail.
pub open spec fn doc_custom_simple(doc: TomlNode) -> bool {
    &&& doc matches TomlNode::Tbl(top)
    &&& tbl_field(top@, "middleware"@) matches Some(mw)
    &&& tbl_field(mw, "custom"@) matches Some(ce) && custom_all_simple(ce)
}

impl Config {
    /// Reads a configuration out of a parsed settings document. A document
    /// that fits the schema and whose custom values are simple is accepted
    /// and denotes the result exactly; one that does not fit is rejected
    /// naming the missing or ill-shaped field.
    pub fn from_doc(doc: &TomlNode) -> (r: Result<Config, Error>)
        ensures
            match r {
                Ok(c) => doc_yields(*doc, c),
                Err(e) => (e matches Error::Config(ConfigError::MissingField(_))) || (e
                    matches Error::Config(ConfigError::InvalidField(_))),
            },
            !doc_fits(*doc) ==> r is Err,
            doc_fits(*doc) && doc_custom_simple(*doc) ==> r is Ok,
    {
        let top = match doc {
            TomlNode::Tbl(t) => t,
            _ => {
                return Err(Error::Config(ConfigError::InvalidField(String::from_str("document"))));
            },
        };
        let server_entries = get_tbl_field(top, "server", "server")?;
        let server = server_from_doc(server_entries)?;
        let mw = get_tbl_field(top, "middleware", "middleware")?;
        let cors = cors_from_doc(get_tbl_field(mw, "cors", "middleware.cors")?)?;
        let jwt = jwt_from_doc(get_tbl_field(mw, "jwt", "middleware.jwt")?)?;
        let static_files = static_from_doc(
            get_tbl_field(mw, "static_files", "middleware.static_files")?,
        )?;
        let templates = templates_from_doc(get_tbl_field(mw, "templates", "middleware.templates")?)?;
        let logging = logging_from_doc(get_tbl_field(mw, "logging", "middleware.logging")?)?;
        let custom = custom_from_doc(get_tbl_field(mw, "custom", "middleware.custom")?)?;
        Ok(
            Config {
                server,
                middleware: MiddlewareConfig { cors, jwt, static_files, templates, logging, custom },
            },
        )
    }

    /// Reads a configuration out of a settings document's text: the text is
    /// parsed by the outside parser, carried over as plain values, and read
    /// against the schema. A document that does not parse at all is rejected
    /// with the parse error, exactly; one that parses but does not fit the
    /// schema is rejected naming the field.
    pub fn from_toml_source(source: &str) -> (r: Result<Config, Error>)
        ensures
            !toml_table_source_ok(source@) <==> (r matches Err(
                Error::Config(ConfigError::ParseFailed(_)),
            )),
            toml_table_source_ok(source@) ==> (r is Ok || (r->Err_0 matches Error::Config(
                ConfigError::MissingField(_),
            )) || (r->Err_0 matches Error::Config(ConfigError::InvalidField(_)))),
            r is Err ==> r->Err_0 is Config,
    {
        let table = match parse_toml_table(source) {
            Ok(t) => t,
            Err(m) => {
                return Err(Error::Config(ConfigError::ParseFailed(m)));
            },
        };
        let top = table_entries(&table);
        let mut converted: Vec<(String, TomlNode)> = Vec::new();
        let mut i: usize = 0;
        while i < top.len()
            decreases top@.len() - i,
        {
            let pair = &top[i];
            converted.push((pair.0.clone(), node_from_toml(&pair.1)));
            i += 1;
        }
        let doc = TomlNode::Tbl(converted);
        Config::from_doc(&doc)
    }
}


/// Port validity: a configuration with a zero port is rejected with the port
/// error, and the port check comes before every other check; any other port
/// passes it, so with templates off and static files off validation succeeds.
pub proof fn lemma_validate_port(c: Config, static_dir_exists: bool, template_dir_exists: bool)
    ensures
        c.server.port == 0 <==> validate_with_spec(c, static_dir_exists, template_dir_exists)
            == Result::<(), Error>::Err(Error::Config(ConfigError::ZeroPort)),
        c.server.port != 0 && !c.middleware.templates.enabled
            && !c.middleware.static_files.enabled ==> validate_with_spec(
            c,
            static_dir_exists,
            template_dir_exists,
        ) is Ok,
{
}

/// Architecture agreement: under the API architecture an enabled template
/// section is rejected (whatever the filesystem says), provided the port
/// check before it passed.
pub proof fn lemma_templates_require_full(
    c: Config,
    static_dir_exists: bool,
    template_dir_exists: bool,
)
    ensures
        c.server.port != 0 && c.middleware.templates.enabled && c.server.architecture is Api
            ==> validate_with_spec(c, static_dir_exists, template_dir_exists) == Result::<
            (),
            Error,
        >::Err(Error::Config(ConfigError::TemplatesRequireFullArchitecture)),
{
}

} // verus!
