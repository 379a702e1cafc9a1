use vstd::prelude::*;
use crate::text::{parse_u32, spec_parse_u32};

verus! {

/// Cost parameters for the credential hasher, supplied by the process
/// configuration rather than hardcoded.
pub struct PasswordHashingConfig {
    pub hash_length: u32,
    pub mem_cost: u32,
    pub time_cost: u32,
    pub lanes: u32,
}

/// The shared symmetric signing secret for identity tokens.
pub struct AuthConfig {
    pub secret: String,
}

pub struct DbConfig {
    pub database_url: String,
}

pub enum Environment {
    Development,
    Production,
}

/// Read-only process-wide configuration, built once at startup and
/// passed by reference into every component that needs it.
pub struct AppConfig {
    pub password: PasswordHashingConfig,
    pub auth: AuthConfig,
    pub db: DbConfig,
    pub environment: Environment,
}

/// Builds the process configuration from the raw textual values of its
/// settings. Returns `None` iff one of the four numeric cost settings
/// does not parse as a decimal `u32`; the environment value maps to
/// `Production` exactly when it equals `"production"`.
pub fn init_config(
    mem_cost: &str,
    time_cost: &str,
    lanes: &str,
    hash_length: &str,
    jwt_secret: &str,
    database_url: &str,
    environment: &str,
) -> (r: Option<AppConfig>)
    ensures
        r is Some <==> {
            &&& spec_parse_u32(mem_cost@) is Some
            &&& spec_parse_u32(time_cost@) is Some
            &&& spec_parse_u32(lanes@) is Some
            &&& spec_parse_u32(hash_length@) is Some
        },
        r matches Some(c) ==> {
            &&& Some(c.password.mem_cost) == spec_parse_u32(mem_cost@)
            &&& Some(c.password.time_cost) == spec_parse_u32(time_cost@)
            &&& Some(c.password.lanes) == spec_parse_u32(lanes@)
            &&& Some(c.password.hash_length) == spec_parse_u32(hash_length@)
            &&& c.auth.secret@ == jwt_secret@
            &&& c.db.database_url@ == database_url@
            &&& (c.environment is Production <==> environment@ == "production"@)
        },
{
    let mem_cost_v = match parse_u32(mem_cost) {
        Some(v) => v,
        None => {
            return None;
        },
    };
    let time_cost_v = match parse_u32(time_cost) {
        Some(v) => v,
        None => {
            return None;
        },
    };
    let lanes_v = match parse_u32(lanes) {
        Some(v) => v,
        None => {
            return None;
        },
    };
    let hash_length_v = match parse_u32(hash_length) {
        Some(v) => v,
        None => {
            return None;
        },
    };
    let env = if crate::text::str_eq(environment, "production") {
        Environment::Production
    } else {
        Environment::Development
    };
    Some(
        AppConfig {
            password: PasswordHashingConfig {
                hash_length: hash_length_v,
                mem_cost: mem_cost_v,
                time_cost: time_cost_v,
                lanes: lanes_v,
            },
            auth: AuthConfig { secret: jwt_secret.to_owned() },
            db: DbConfig { database_url: database_url.to_owned() },
            environment: env,
        },
    )
}

} // verus!
