//! Configuration schema and hydration.
//!
//! The textual syntax of the configuration file is out of scope: an
//! unverified shell parses the file and hands in a plain [`Config`]. This
//! module owns the schema rules: the port default, the `safe_async` default,
//! rejection of non-string document values, and resolution of each document
//! path relative to the configuration directory.

use vstd::prelude::*;
use vstd::string::StrSliceExecFns;
use vstd::string::StringExecFns;

verus! {

/// The optional asynchronous-execution options table.
#[derive(Clone, Copy)]
pub struct AsyncOptions {
    pub safe_async: Option<bool>,
}

/// A raw configuration value for a document entry: a string, or anything
/// else (which the schema rejects).
pub enum ConfigValue {
    Text(String),
    Other,
}

/// The parsed configuration file, before hydration: optional fields still
/// optional, document values still unchecked.
pub struct Config {
    pub ip: String,
    pub port: Option<u16>,
    pub async_opts: Option<AsyncOptions>,
    pub documents: Vec<(String, ConfigValue)>,
}

/// Raised when a file cannot be read or a loaded script fails.
#[derive(Debug)]
pub struct FileReadError;

/// Raised when the configuration violates its schema.
#[derive(Debug)]
pub struct ConfigError;

/// The validated configuration: every default applied, every document path
/// resolved, names unique.
pub struct HydratedConfig {
    ip: String,
    port: u16,
    documents: Vec<(String, String)>,
    safe_async: bool,
}

pub open spec fn spec_strip_trailing_slash(s: Seq<char>) -> Seq<char> {
    if s.len() > 0 && s[s.len() - 1] == '/' {
        s.take(s.len() - 1)
    } else {
        s
    }
}

pub open spec fn spec_default_port(p: Option<u16>) -> u16 {
    match p {
        Some(x) => x,
        None => 8000,
    }
}

pub open spec fn spec_effective_safe_async(o: Option<AsyncOptions>) -> bool {
    match o {
        Some(a) => match a.safe_async {
            Some(b) => b,
            None => true,
        },
        None => true,
    }
}

pub open spec fn is_text(v: ConfigValue) -> bool {
    v is Text
}

pub open spec fn spec_text(v: ConfigValue) -> Seq<char> {
    match v {
        ConfigValue::Text(s) => s@,
        ConfigValue::Other => Seq::empty(),
    }
}

/// A document path: the stripped base directory, a separator, and the
/// configured relative path.
pub open spec fn spec_doc_path(base: Seq<char>, rel: Seq<char>) -> Seq<char> {
    spec_strip_trailing_slash(base) + "/"@ + rel
}

impl HydratedConfig {
    pub closed spec fn spec_ip(&self) -> Seq<char> {
        self.ip@
    }

    pub closed spec fn spec_port(&self) -> u16 {
        self.port
    }

    pub closed spec fn spec_documents(&self) -> Seq<(String, String)> {
        self.documents@
    }

    pub closed spec fn spec_safe_async(&self) -> bool {
        self.safe_async
    }

    /// Well-formedness: document names are unique.
    pub open spec fn wf(&self) -> bool {
        forall|i: int, j: int|
            0 <= i < j < self.spec_documents().len()
                ==> self.spec_documents()[i].0@ != self.spec_documents()[j].0@
    }

    pub fn new(ip: String, port: u16, documents: Vec<(String, String)>, safe_async: bool) -> (r:
        Self)
        ensures
            r.spec_ip() == ip@,
            r.spec_port() == port,
            r.spec_documents() == documents@,
            r.spec_safe_async() == safe_async,
    {
        HydratedConfig { ip, port, documents, safe_async }
    }

    pub fn get_ip(&self) -> (r: &str)
        ensures
            r@ == self.spec_ip(),
    {
        self.ip.as_str()
    }

    pub fn get_port(&self) -> (r: u16)
        ensures
            r == self.spec_port(),
    {
        self.port
    }

    pub fn get_documents(&self) -> (r: &Vec<(String, String)>)
        ensures
            r@ == self.spec_documents(),
    {
        &self.documents
    }

    pub fn get_safe_async(&self) -> (r: bool)
        ensures
            r == self.spec_safe_async(),
    {
        self.safe_async
    }
}

/// The default for `safe_async` when the configuration leaves it out.
pub fn default_safe_async() -> (b: bool)
    ensures
        b == true,
{
    true
}

/// Removes one trailing separator from a directory path, if present.
pub fn strip_trailing_slash(s: &str) -> (r: String)
    ensures
        r@ == spec_strip_trailing_slash(s@),
{
    let n = s.unicode_len();
    if n > 0 && s.get_char(n - 1) == '/' {
        s.substring_char(0, n - 1).to_owned()
    } else {
        s.to_owned()
    }
}

/// The location of the configuration file under a base directory.
pub fn config_file_path(base: &str) -> (r: String)
    ensures
        r@ == spec_strip_trailing_slash(base@) + "/Athen.toml"@,
{
    let stripped = strip_trailing_slash(base);
    stripped.concat("/Athen.toml")
}

/// Applies the schema to a parsed configuration: defaults for `port` and
/// `safe_async`, string-only document values, and document paths resolved
/// against the configuration directory. Rejects exactly the configurations
/// with a non-string document value.
pub fn hydrate_config(data: Config, base: &str) -> (r: Result<HydratedConfig, ConfigError>)
    requires
        forall|i: int, j: int|
            0 <= i < j < data.documents@.len() ==> data.documents@[i].0@ != data.documents@[j].0@,
    ensures
        (r matches Ok(h)) <==> (forall|i: int|
            0 <= i < data.documents@.len() ==> is_text(data.documents@[i].1)),
        r matches Ok(h) ==> {
            &&& h.spec_ip() == data.ip@
            &&& h.spec_port() == spec_default_port(data.port)
            &&& h.spec_safe_async() == spec_effective_safe_async(data.async_opts)
            &&& h.spec_documents().len() == data.documents@.len()
            &&& forall|i: int|
                0 <= i < data.documents@.len() ==> #[trigger] h.spec_documents()[i].0@
                    == data.documents@[i].0@ && h.spec_documents()[i].1@ == spec_doc_path(
                    base@,
                    spec_text(data.documents@[i].1),
                )
            &&& h.wf()
        },
{
    let stripped = strip_trailing_slash(base);
    let mut documents: Vec<(String, String)> = Vec::new();
    let mut idx: usize = 0;
    while idx < data.documents.len()
        invariant
            idx <= data.documents@.len(),
            stripped@ == spec_strip_trailing_slash(base@),
            documents@.len() == idx,
            forall|k: int| 0 <= k < idx ==> is_text(#[trigger] data.documents@[k].1),
            forall|k: int|
                0 <= k < idx ==> #[trigger] documents@[k].0@ == data.documents@[k].0@
                    && documents@[k].1@ == spec_doc_path(base@, spec_text(data.documents@[k].1)),
        decreases data.documents@.len() - idx,
    {
        match &data.documents[idx].1 {
            ConfigValue::Text(s) => {
                let mut path = stripped.clone();
                path.append("/");
                path.append(s.as_str());
                let name = data.documents[idx].0.clone();
                documents.push((name, path));
            },
            ConfigValue::Other => {
                return Err(ConfigError);
            },
        }
        idx += 1;
    }
    let port = match data.port {
        Some(p) => p,
        None => 8000,
    };
    let safe_async = match &data.async_opts {
        Some(a) => match a.safe_async {
            Some(b) => b,
            None => true,
        },
        None => true,
    };
    let result = HydratedConfig::new(data.ip, port, documents, safe_async);
    assert(result.wf());
    Ok(result)
}

} // verus!
