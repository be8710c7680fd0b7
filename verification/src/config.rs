//! The server's configuration, computed from the values of its environment variables.

use vstd::prelude::*;
use vstd::string::*;

use crate::text::{lowercase_eq, lowercase_equals, parse_unsigned, unsigned_value};

verus! {

/// The values of the environment variables the server reads; `None` where a variable
/// is not set (or does not hold Unicode). The database URL is required.
pub struct EnvVars {
    /// `HOST`
    pub host: Option<String>,
    /// `PORT`
    pub port: Option<String>,
    /// `TLS_PORT`
    pub tls_port: Option<String>,
    /// `WEBSOCKET_TIMEOUT`, in seconds
    pub websocket_timeout: Option<String>,
    /// `DATABASE_URL`
    pub database_url: String,
    /// `DATABASE_MAX_CONNECTIONS`
    pub database_max_connections: Option<String>,
    /// `DATABASE_MIN_CONNECTIONS`
    pub database_min_connections: Option<String>,
    /// `DATABASE_IDLE_TIMEOUT_SECONDS`
    pub database_idle_timeout_seconds: Option<String>,
    /// `DATABASE_MAX_LIFETIME_SECONDS`
    pub database_max_lifetime_seconds: Option<String>,
    /// `DATABASE_CONNECT_TIMEOUT_SECONDS`
    pub database_connect_timeout_seconds: Option<String>,
    /// `DATABASE_LOG_QUERIES`
    pub database_log_queries: Option<String>,
    /// `STATUS_KEY`
    pub status_key: Option<String>,
}

/// How to connect to the database.
pub struct DatabaseOptions {
    pub url: String,
    pub max_connections: u32,
    pub min_connections: u32,
    /// Also the timeout for acquiring a connection from the pool.
    pub connect_timeout_secs: u64,
    pub idle_timeout_secs: u64,
    pub max_lifetime_secs: u64,
    /// Whether SQL statements are logged (at level `Info`).
    pub log_queries: bool,
}

/// The server's configuration.
pub struct ServerConfig {
    /// The host the HTTP server listens on (default 127.0.0.1)
    pub listen_host: String,
    /// The port the HTTP server listens on (default 4000)
    pub listen_port: u16,
    /// The port the HTTPS server listens on (default 0 - disabled)
    pub listen_port_tls: u16,
    /// If no message is received in this many seconds, the server sends a ping (default 25).
    pub web_socket_timeout_secs: u64,
    /// If not empty, the password required to access the status endpoint.
    pub status_key: String,
    pub db_options: DatabaseOptions,
}

/// A numeric setting: the number `value` writes if it is set and writes one that is at
/// most `max`, else `default`.
pub open spec fn setting(value: Option<String>, max: nat, default: nat) -> nat {
    match value {
        Some(s) => match unsigned_value(s@, max) {
            Some(v) => v,
            None => default,
        },
        None => default,
    }
}

/// A text setting: `value` if it is set, else `default`.
pub open spec fn text_setting(value: Option<String>, default: Seq<char>) -> Seq<char> {
    match value {
        Some(s) => s@,
        None => default,
    }
}

/// Whether `value` turns query logging on: lowercased in the ASCII sense, it is
/// `true`, `1`, `yes` or `on`.
pub open spec fn switched_on(value: Option<String>) -> bool {
    match value {
        Some(s) => lowercase_equals(s@, "true"@) || lowercase_equals(s@, "1"@) || lowercase_equals(s@, "yes"@)
            || lowercase_equals(s@, "on"@),
        None => false,
    }
}

fn numeric_setting(value: &Option<String>, max: u64, default: u64) -> (v: u64)
    requires
        default <= max,
    ensures
        v == setting(*value, max as nat, default as nat),
        v <= max,
{
    match value {
        Some(s) => match parse_unsigned(s.as_str(), max) {
            Some(v) => v,
            None => default,
        },
        None => default,
    }
}

fn text_setting_or(value: Option<String>, default: &str) -> (v: String)
    ensures
        v@ == text_setting(value, default@),
{
    match value {
        Some(s) => s,
        None => String::from_str(default),
    }
}

fn is_switched_on(value: &Option<String>) -> (on: bool)
    ensures
        on == switched_on(*value),
{
    match value {
        Some(s) => {
            let s = s.as_str();
            lowercase_eq(s, "true") || lowercase_eq(s, "1") || lowercase_eq(s, "yes") || lowercase_eq(s, "on")
        },
        None => false,
    }
}

impl ServerConfig {
    /// Computes the configuration: each setting is taken from its variable where that
    /// holds a valid value, and falls back to its default otherwise.
    pub fn configure(env: EnvVars) -> (c: ServerConfig)
        ensures
            c.listen_host@ == text_setting(env.host, "127.0.0.1"@),
            c.listen_port == setting(env.port, u16::MAX as nat, 4000),
            c.listen_port_tls == setting(env.tls_port, u16::MAX as nat, 0),
            c.web_socket_timeout_secs == setting(env.websocket_timeout, u64::MAX as nat, 25),
            c.status_key@ == text_setting(env.status_key, Seq::<char>::empty()),
            c.db_options.url@ == env.database_url@,
            c.db_options.max_connections == setting(env.database_max_connections, u32::MAX as nat, 100),
            c.db_options.min_connections == setting(env.database_min_connections, u32::MAX as nat, 5),
            c.db_options.idle_timeout_secs == setting(env.database_idle_timeout_seconds, u64::MAX as nat, 3600),
            c.db_options.max_lifetime_secs == setting(env.database_max_lifetime_seconds, u64::MAX as nat, 5),
            c.db_options.connect_timeout_secs == setting(
                env.database_connect_timeout_seconds,
                u64::MAX as nat,
                (c.web_socket_timeout_secs / 2) as nat,
            ),
            c.db_options.log_queries == switched_on(env.database_log_queries),
    {
        let port = numeric_setting(&env.port, 65535, 4000) as u16;
        let tls_port = numeric_setting(&env.tls_port, 65535, 0) as u16;
        let web_socket_timeout_secs = numeric_setting(&env.websocket_timeout, u64::MAX, 25);
        let max_connections = numeric_setting(&env.database_max_connections, 4294967295, 100) as u32;
        let min_connections = numeric_setting(&env.database_min_connections, 4294967295, 5) as u32;
        let idle_timeout_secs = numeric_setting(&env.database_idle_timeout_seconds, u64::MAX, 3600);
        let max_lifetime_secs = numeric_setting(&env.database_max_lifetime_seconds, u64::MAX, 5);
        let connect_timeout_secs = numeric_setting(
            &env.database_connect_timeout_seconds,
            u64::MAX,
            web_socket_timeout_secs / 2,
        );
        let log_queries = is_switched_on(&env.database_log_queries);
        ServerConfig {
            listen_host: text_setting_or(env.host, "127.0.0.1"),
            listen_port: port,
            listen_port_tls: tls_port,
            web_socket_timeout_secs,
            status_key: match env.status_key {
                Some(k) => k,
                None => String::new(),
            },
            db_options: DatabaseOptions {
                url: env.database_url,
                max_connections,
                min_connections,
                connect_timeout_secs,
                idle_timeout_secs,
                max_lifetime_secs,
                log_queries,
            },
        }
    }
}

} // verus!
