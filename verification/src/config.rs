//! The server's settings and their defaults.
use vstd::prelude::*;
use vstd::string::StringExecFns;

verus! {

/// The settings read from `config.toml`. Every setting but the path of the
/// book list may be left out, and then takes its default.
pub struct Config {
    bind_host: Option<String>,
    bind_port: Option<u16>,
    db_file: String,
    db_safe: Option<bool>,
}

impl Config {
    /// Settings as written in the file, left-out ones as `None`.
    pub fn new(
        bind_host: Option<String>,
        bind_port: Option<u16>,
        db_file: String,
        db_safe: Option<bool>,
    ) -> (c: Self)
        ensures
            c.bind_host() == bind_host,
            c.bind_port() == bind_port,
            c.db_file() == db_file,
            c.db_safe() == db_safe,
    {
        Config { bind_host, bind_port, db_file, db_safe }
    }

    /// The host as written in the file.
    pub closed spec fn bind_host(self) -> Option<String> {
        self.bind_host
    }

    /// The port as written in the file.
    pub closed spec fn bind_port(self) -> Option<u16> {
        self.bind_port
    }

    /// The path of the book list.
    pub closed spec fn db_file(self) -> String {
        self.db_file
    }

    /// The safe-content switch as written in the file.
    pub closed spec fn db_safe(self) -> Option<bool> {
        self.db_safe
    }

    /// The host to listen on; `127.0.0.1` when left out.
    pub fn get_bind_host(&self) -> (h: String)
        ensures
            h@ == (match self.bind_host() {
                Some(host) => host@,
                None => "127.0.0.1"@,
            }),
    {
        match &self.bind_host {
            Some(host) => host.clone(),
            None => String::from_str("127.0.0.1"),
        }
    }

    /// The port to listen on; 8080 when left out.
    pub fn get_bind_port(&self) -> (p: u16)
        ensures
            p == (match self.bind_port() {
                Some(port) => port,
                None => 8080u16,
            }),
    {
        match self.bind_port {
            Some(port) => port,
            None => 8080,
        }
    }

    /// The path of the book list.
    pub fn get_db_file(&self) -> (f: String)
        ensures
            f@ == self.db_file()@,
    {
        self.db_file.clone()
    }

    /// Whether the book list is marked safe; `false` when left out.
    pub fn is_db_safe(&self) -> (b: bool)
        ensures
            b == (match self.db_safe() {
                Some(safe) => safe,
                None => false,
            }),
    {
        match self.db_safe {
            Some(safe) => safe,
            None => false,
        }
    }
}

} // verus!
