use vstd::prelude::*;

verus! {

/// The name of the backend collection every operation works on.
pub open spec fn spec_todo_collection() -> Seq<char> {
    "todo"@
}

/// The fixed collection name, `"todo"`, for both backend variants.
pub fn todo_collection() -> (r: String)
    ensures
        r@ == spec_todo_collection(),
{
    "todo".to_owned()
}

/// Where the backend lives: an embedded, in-process engine under a
/// logical path, or a networked service at host:port.
#[derive(Debug)]
pub enum BackendAddress {
    Embedded { path: String },
    Networked { host: String, port: u16 },
}

/// The configuration the handle provider resolves once at startup and
/// never changes afterwards.
#[derive(Debug)]
pub struct Config {
    pub address: BackendAddress,
    pub username: Option<String>,
    pub password: Option<String>,
    pub namespace: String,
    pub database: String,
}

/// The string a setting resolves to: the configured value, or the
/// documented default.
pub open spec fn or_default(given: Option<String>, default: Seq<char>) -> Seq<char> {
    match given {
        Some(s) => s@,
        None => default,
    }
}

fn pick(given: Option<String>, default: &str) -> (r: String)
    ensures
        r@ == or_default(given, default@),
{
    match given {
        Some(s) => s,
        None => default.to_owned(),
    }
}

impl Config {
    /// Credentials are used only when both parts are configured.
    pub open spec fn wants_signin(&self) -> bool {
        self.username is Some && self.password is Some
    }

    /// Resolve the embedded variant: a local in-process path (default
    /// `"todos"`), authentication only if both credentials were given,
    /// namespace `"leptos_examples"` and database `"todos"` unless
    /// overridden.
    pub fn embedded(
        path: Option<String>,
        username: Option<String>,
        password: Option<String>,
        namespace: Option<String>,
        database: Option<String>,
    ) -> (c: Config)
        ensures
            c.address matches BackendAddress::Embedded { path: p } && p@ == or_default(
                path,
                "todos"@,
            ),
            c.username == username,
            c.password == password,
            c.namespace@ == or_default(namespace, "leptos_examples"@),
            c.database@ == or_default(database, "todos"@),
    {
        Config {
            address: BackendAddress::Embedded { path: pick(path, "todos") },
            username,
            password,
            namespace: pick(namespace, "leptos_examples"),
            database: pick(database, "todos"),
        }
    }

    /// Resolve the networked variant: host `"127.0.0.1"` and port `8000`
    /// unless overridden, authentication always on — missing credentials
    /// fall back to the fixed defaults `"root"`/`"root"` — namespace and
    /// database as for the embedded variant.
    pub fn networked(
        host: Option<String>,
        port: Option<u16>,
        username: Option<String>,
        password: Option<String>,
        namespace: Option<String>,
        database: Option<String>,
    ) -> (c: Config)
        ensures
            c.address matches BackendAddress::Networked { host: h, port: p } && h@ == or_default(
                host,
                "127.0.0.1"@,
            ) && p == (match port {
                Some(q) => q,
                None => 8000u16,
            }),
            c.username matches Some(u) && u@ == or_default(username, "root"@),
            c.password matches Some(w) && w@ == or_default(password, "root"@),
            c.namespace@ == or_default(namespace, "leptos_examples"@),
            c.database@ == or_default(database, "todos"@),
            c.wants_signin(),
    {
        let resolved_port = match port {
            Some(q) => q,
            None => 8000,
        };
        Config {
            address: BackendAddress::Networked {
                host: pick(host, "127.0.0.1"),
                port: resolved_port,
            },
            username: Some(pick(username, "root")),
            password: Some(pick(password, "root")),
            namespace: pick(namespace, "leptos_examples"),
            database: pick(database, "todos"),
        }
    }
}

} // verus!
