//! Process configuration: server, database and token settings, built
//! from raw environment values with verified parsing and defaults.
//!
//! Reading the environment happens outside the library; the raw
//! readings are handed in as optional strings.

use vstd::prelude::*;
use vstd::utf8::encode_utf8;
use crate::strutil::{parse_u16_or, parse_u32_or, parse_u64_or, spec_parsed_u16, spec_parsed_u32, spec_parsed_u64};

verus! {

/// Where the server listens, and in which environment it runs.
#[derive(Debug)]
pub struct ServerConfig {
    pub host: String,
    pub port: u16,
    pub environment: String,
}

/// How the connection pool is sized and timed, and where it connects.
#[derive(Debug)]
pub struct DatabaseConfig {
    pub max_connections: u32,
    pub acquire_timeout: u64,
    pub idle_timeout: u64,
    pub max_lifetime: u64,
    pub url: String,
}

/// Token secrets and lifetimes, in seconds.
#[derive(Debug)]
pub struct JwtConfig {
    pub secret: String,
    pub expiration: u32,
    pub refresh_secret: String,
    pub refresh_expiration: u32,
}

/// The whole process configuration.
#[derive(Debug)]
pub struct Config {
    pub server: ServerConfig,
    pub database: DatabaseConfig,
    pub jwt: JwtConfig,
}

/// The raw environment readings the configuration is built from.
#[derive(Debug)]
pub struct EnvValues {
    pub server_host: Option<String>,
    pub server_port: Option<String>,
    pub environment: Option<String>,
    pub database_max_connections: Option<String>,
    pub database_acquire_timeout: Option<String>,
    pub database_idle_timeout: Option<String>,
    pub database_max_lifetime: Option<String>,
    pub database_url: Option<String>,
    pub jwt_secret: Option<String>,
    pub jwt_expiration: Option<String>,
    pub jwt_refresh_secret: Option<String>,
    pub jwt_refresh_expiration: Option<String>,
}

/// The parsed-or-default reading of an optional numeric variable.
pub open spec fn spec_env_u16(v: Option<String>, d: u16) -> u16 {
    match v {
        Some(s) => spec_parsed_u16(encode_utf8(s@), d),
        None => d,
    }
}

/// The parsed-or-default reading of an optional numeric variable.
pub open spec fn spec_env_u32(v: Option<String>, d: u32) -> u32 {
    match v {
        Some(s) => spec_parsed_u32(encode_utf8(s@), d),
        None => d,
    }
}

/// The parsed-or-default reading of an optional numeric variable.
pub open spec fn spec_env_u64(v: Option<String>, d: u64) -> u64 {
    match v {
        Some(s) => spec_parsed_u64(encode_utf8(s@), d),
        None => d,
    }
}

/// The string-or-default reading of an optional variable.
pub open spec fn spec_env_str(v: Option<String>, d: Seq<char>) -> Seq<char> {
    match v {
        Some(s) => s@,
        None => d,
    }
}

fn env_u16(v: &Option<String>, d: u16) -> (r: u16)
    ensures
        r == spec_env_u16(*v, d),
{
    match v {
        Some(s) => parse_u16_or(s.as_str(), d),
        None => d,
    }
}

fn env_u32(v: &Option<String>, d: u32) -> (r: u32)
    ensures
        r == spec_env_u32(*v, d),
{
    match v {
        Some(s) => parse_u32_or(s.as_str(), d),
        None => d,
    }
}

fn env_u64(v: &Option<String>, d: u64) -> (r: u64)
    ensures
        r == spec_env_u64(*v, d),
{
    match v {
        Some(s) => parse_u64_or(s.as_str(), d),
        None => d,
    }
}

impl Config {
    /// Builds the configuration from raw environment readings: numeric
    /// variables fall back to their defaults on absence or malformed
    /// text; the database URL and both token secrets are required.
    pub fn from_env_values(vals: EnvValues) -> (r: Config)
        requires
            vals.database_url is Some,
            vals.jwt_secret is Some,
            vals.jwt_refresh_secret is Some,
        ensures
            r.server.host@ == spec_env_str(vals.server_host, "127.0.0.1"@),
            r.server.port == spec_env_u16(vals.server_port, 5432),
            r.server.environment@ == spec_env_str(vals.environment, "development"@),
            r.database.max_connections == spec_env_u32(vals.database_max_connections, 100),
            r.database.acquire_timeout == spec_env_u64(vals.database_acquire_timeout, 3),
            r.database.idle_timeout == spec_env_u64(vals.database_idle_timeout, 600),
            r.database.max_lifetime == spec_env_u64(vals.database_max_lifetime, 1800),
            r.database.url == vals.database_url.unwrap(),
            r.jwt.secret == vals.jwt_secret.unwrap(),
            r.jwt.expiration == spec_env_u32(vals.jwt_expiration, 86400),
            r.jwt.refresh_secret == vals.jwt_refresh_secret.unwrap(),
            r.jwt.refresh_expiration == spec_env_u32(vals.jwt_refresh_expiration, 604800),
    {
        let port = env_u16(&vals.server_port, 5432);
        let max_connections = env_u32(&vals.database_max_connections, 100);
        let acquire_timeout = env_u64(&vals.database_acquire_timeout, 3);
        let idle_timeout = env_u64(&vals.database_idle_timeout, 600);
        let max_lifetime = env_u64(&vals.database_max_lifetime, 1800);
        let expiration = env_u32(&vals.jwt_expiration, 86400);
        let refresh_expiration = env_u32(&vals.jwt_refresh_expiration, 604800);
        let host = match vals.server_host {
            Some(h) => h,
            None => "127.0.0.1".to_owned(),
        };
        let environment = match vals.environment {
            Some(e) => e,
            None => "development".to_owned(),
        };
        let server = ServerConfig { host, port, environment };
        let database = DatabaseConfig {
            max_connections,
            acquire_timeout,
            idle_timeout,
            max_lifetime,
            url: vals.database_url.unwrap(),
        };
        let jwt = JwtConfig {
            secret: vals.jwt_secret.unwrap(),
            expiration,
            refresh_secret: vals.jwt_refresh_secret.unwrap(),
            refresh_expiration,
        };
        Config { server, database, jwt }
    }
}

} // verus!
