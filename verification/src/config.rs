//! Resolved server configuration.
//!
//! The server is configured from command-line arguments, optionally merged
//! with a configuration file.  Command-line arguments override the file for
//! the serving path, the custom not-found page, the log settings and the
//! boolean switches; the file supplies the subcommand, the port and the
//! address.  Parsing the command line and reading the file happen at the
//! process edge; the merge itself is decided here, field by field.

use vstd::prelude::*;

verus! {

/// TLS settings: where the certificate and the private key live, and
/// whether plaintext HTTP is redirected to HTTPS.  The paths are immutable
/// for the process lifetime and are re-read from disk on every reload
/// attempt.
#[derive(Debug)]
pub struct Tls {
    /// Path to the certificate file.
    pub cert: String,
    /// Path to the private key file.
    pub key: String,
    /// Redirect HTTP to HTTPS.  Works only if the 443 port is used.
    pub redirect_http: bool,
}

/// Subcommands for additional features.
#[derive(Debug)]
pub enum Subcommands {
    /// Adds TLS support.
    Tls(Tls),
}

/// How talkative the logging is: how many times the verbose and the quiet
/// flags were given.  Both at zero means neither was present.
#[derive(Clone, Copy, Debug, PartialEq, Eq, Structural)]
pub struct LogVerbosity {
    /// How many times more verbosity was asked for.
    pub verbose: u8,
    /// How many times less verbosity was asked for.
    pub quiet: u8,
}

impl LogVerbosity {
    /// Whether either flag was given on the command line.
    pub open spec fn spec_is_present(self) -> bool {
        self.verbose != 0 || self.quiet != 0
    }

    /// Whether either flag was given on the command line.
    pub fn is_present(&self) -> (b: bool)
        ensures
            b == self.spec_is_present(),
    {
        self.verbose != 0 || self.quiet != 0
    }
}

/// The resolved configuration of the server.
#[derive(Debug)]
pub struct ServeConfig {
    /// Path to the configuration file, when one is used.
    pub config: Option<String>,
    /// Subcommands for additional features.
    pub subcommand: Option<Subcommands>,
    /// Path to the directory to serve.  Defaults to the current directory.
    pub path: Option<String>,
    /// Port to listen on.
    pub port: u16,
    /// Address to listen on, as text.
    pub addr: String,
    /// Compression is enabled unless this is set.
    pub disable_compression: bool,
    /// Path to a custom 404 page.
    pub not_found: Option<String>,
    /// Serve the custom 404 page with 200 OK (useful for single-page
    /// applications).
    pub ok: bool,
    /// Log level.
    pub log_level: LogVerbosity,
    /// Path to the directory where logs are stored; absent means stdout.
    pub log_path: Option<String>,
    /// Maximum number of log files to keep.
    pub log_max_files: Option<usize>,
}

impl ServeConfig {
    /// The directory to serve: the configured path, or the current
    /// directory when none was given.
    pub fn get_path(&self) -> (p: String)
        ensures
            self.path matches Some(q) ==> p@ == q@,
            self.path is None ==> p@ == "."@,
    {
        match &self.path {
            Some(p) => p.clone(),
            None => ".".to_owned(),
        }
    }

    /// Merge this configuration (from the command line) with the one read
    /// from the configuration file.  The command line wins for the serving
    /// path, the not-found page, the log destination and file count, and
    /// the log level when one of its flags was given; the boolean switches
    /// are on when either side turns them on; the file alone supplies the
    /// subcommand, the port and the address.
    pub fn resolve_config(self, file: ServeConfig) -> (r: ServeConfig)
        ensures
            r.config == self.config,
            r.subcommand == file.subcommand,
            r.path == if self.path is Some {
                self.path
            } else {
                file.path
            },
            r.port == file.port,
            r.addr == file.addr,
            r.disable_compression == (self.disable_compression || file.disable_compression),
            r.not_found == if self.not_found is Some {
                self.not_found
            } else {
                file.not_found
            },
            r.ok == (self.ok || file.ok),
            r.log_level == if self.log_level.spec_is_present() {
                self.log_level
            } else {
                file.log_level
            },
            r.log_path == if self.log_path is Some {
                self.log_path
            } else {
                file.log_path
            },
            r.log_max_files == if self.log_max_files is Some {
                self.log_max_files
            } else {
                file.log_max_files
            },
    {
        ServeConfig {
            config: self.config,
            subcommand: file.subcommand,
            path: match self.path {
                Some(p) => Some(p),
                None => file.path,
            },
            port: file.port,
            addr: file.addr,
            disable_compression: self.disable_compression || file.disable_compression,
            not_found: match self.not_found {
                Some(p) => Some(p),
                None => file.not_found,
            },
            ok: self.ok || file.ok,
            log_level: if self.log_level.is_present() {
                self.log_level
            } else {
                file.log_level
            },
            log_path: match self.log_path {
                Some(p) => Some(p),
                None => file.log_path,
            },
            log_max_files: match self.log_max_files {
                Some(n) => Some(n),
                None => file.log_max_files,
            },
        }
    }
}

} // verus!
