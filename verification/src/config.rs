//! Static configuration model.
//!
//! The embedding program fills these records from its environment; the core
//! only consumes the plain values. `Config::default` pins every default the
//! service starts from.

use crate::error::AppError;
use crate::utils::all_digits;
use crate::utils::is_true_literal;
use crate::utils::parse_bool_flag;
use crate::utils::parse_i32;
use crate::utils::parse_i64;
use crate::utils::parse_u64;
use crate::utils::signed_ok;
use crate::utils::spec_dec_val;
use crate::utils::spec_signed_val;
use vstd::prelude::*;

verus! {

#[derive(Debug, Clone)]
pub struct TelegramConfig {
    pub api_id: i32,
    pub api_hash: String,
    pub bot_token: String,
    pub bin_channel: i64,
    pub multi_tokens: Vec<String>,
}

#[derive(Debug, Clone)]
pub struct ServerConfig {
    pub port: u16,
    pub bind_address: String,
    pub hash_length: usize,
    pub fqdn: Option<String>,
    pub has_ssl: bool,
    pub no_port: bool,
    pub workers: usize,
}

#[derive(Debug, Clone)]
pub struct CloudreveConfig {
    pub enabled: bool,
    pub api_url: String,
    pub username: String,
    pub password: String,
    pub download_path: String,
}

#[derive(Debug, Clone)]
pub struct LoggingConfig {
    pub level: String,
    pub format: String,
}

#[derive(Debug, Clone)]
pub struct Config {
    pub telegram: TelegramConfig,
    pub server: ServerConfig,
    pub cloudreve: CloudreveConfig,
    pub logging: LoggingConfig,
}

impl Default for Config {
    /// The configuration the service starts from before any override.
    fn default() -> (c: Config)
        ensures
            c.telegram.api_id == 0,
            c.telegram.api_hash@ == Seq::<char>::empty(),
            c.telegram.bot_token@ == Seq::<char>::empty(),
            c.telegram.bin_channel == 0,
            c.telegram.multi_tokens@ == Seq::<String>::empty(),
            c.server.port == 8080,
            c.server.bind_address@ == "0.0.0.0"@,
            c.server.hash_length == 6,
            c.server.fqdn is None,
            !c.server.has_ssl,
            !c.server.no_port,
            c.server.workers == 3,
            !c.cloudreve.enabled,
            c.cloudreve.api_url@ == Seq::<char>::empty(),
            c.cloudreve.username@ == Seq::<char>::empty(),
            c.cloudreve.password@ == Seq::<char>::empty(),
            c.cloudreve.download_path@ == "/"@,
            c.logging.level@ == "info"@,
            c.logging.format@ == "json"@,
    {
        Config {
            telegram: TelegramConfig {
                api_id: 0,
                api_hash: String::new(),
                bot_token: String::new(),
                bin_channel: 0,
                multi_tokens: Vec::new(),
            },
            server: ServerConfig {
                port: 8080,
                bind_address: String::from_str("0.0.0.0"),
                hash_length: 6,
                fqdn: None,
                has_ssl: false,
                no_port: false,
                workers: 3,
            },
            cloudreve: CloudreveConfig {
                enabled: false,
                api_url: String::new(),
                username: String::new(),
                password: String::new(),
                download_path: String::from_str("/"),
            },
            logging: LoggingConfig {
                level: String::from_str("info"),
                format: String::from_str("json"),
            },
        }
    }
}

/// The raw setting values the embedding program found in its
/// environment, before any validation. A missing variable is `None`.
#[derive(Debug, Clone)]
pub struct ConfigOverrides {
    pub api_id: Option<String>,
    pub api_hash: Option<String>,
    pub bot_token: Option<String>,
    pub bin_channel: Option<String>,
    pub multi_tokens: Vec<String>,
    pub port: Option<String>,
    pub bind_address: Option<String>,
    pub hash_length: Option<String>,
    pub fqdn: Option<String>,
    pub has_ssl: Option<String>,
    pub no_port: Option<String>,
    pub workers: Option<String>,
    pub cloudreve_enabled: Option<String>,
    pub cloudreve_api_url: Option<String>,
    pub cloudreve_username: Option<String>,
    pub cloudreve_email: Option<String>,
    pub cloudreve_password: Option<String>,
    pub cloudreve_download_path: Option<String>,
    pub log_level: Option<String>,
}

/// When a set of raw settings is acceptable: the four required values
/// are present and numeric ones parse into their fields' ranges, and
/// every optional numeric value that is present does too.
pub open spec fn overrides_ok(o: ConfigOverrides) -> bool {
    &&& o.api_id matches Some(s) && signed_ok(s@) && i32::MIN <= spec_signed_val(s@) <= i32::MAX
    &&& o.api_hash is Some
    &&& o.bot_token is Some
    &&& o.bin_channel matches Some(s) && signed_ok(s@) && i64::MIN <= spec_signed_val(s@)
        <= i64::MAX
    &&& o.port matches Some(s) ==> (s@.len() > 0 && all_digits(s@) && spec_dec_val(s@)
        <= u16::MAX)
    &&& o.hash_length matches Some(s) ==> (s@.len() > 0 && all_digits(s@) && spec_dec_val(s@)
        <= usize::MAX)
    &&& o.workers matches Some(s) ==> (s@.len() > 0 && all_digits(s@) && spec_dec_val(s@)
        <= usize::MAX)
}

/// Builds the effective configuration from the defaults and the raw
/// setting values, exactly as the service has always interpreted its
/// environment: four required settings, numeric validation, `true`
/// flags, and a username that falls back to the e-mail setting.
pub fn build_config(o: ConfigOverrides) -> (r: Result<Config, AppError>)
    ensures
        r is Ok <==> overrides_ok(o),
        r matches Err(e) ==> e is Config,
        r matches Ok(c) ==> {
            &&& o.api_id matches Some(s) && c.telegram.api_id == spec_signed_val(s@)
            &&& o.api_hash matches Some(h) && c.telegram.api_hash == h
            &&& o.bot_token matches Some(t) && c.telegram.bot_token == t
            &&& o.bin_channel matches Some(b) && c.telegram.bin_channel == spec_signed_val(b@)
            &&& c.telegram.multi_tokens == o.multi_tokens
            &&& c.server.port as int == (match o.port {
                Some(p) => spec_dec_val(p@),
                None => 8080,
            })
            &&& (match o.bind_address {
                Some(b) => c.server.bind_address == b,
                None => c.server.bind_address@ == "0.0.0.0"@,
            })
            &&& c.server.hash_length as int == (match o.hash_length {
                Some(h) => spec_dec_val(h@),
                None => 6,
            })
            &&& c.server.fqdn == o.fqdn
            &&& c.server.has_ssl == (o.has_ssl matches Some(v) && is_true_literal(v@))
            &&& c.server.no_port == (o.no_port matches Some(v) && is_true_literal(v@))
            &&& c.server.workers as int == (match o.workers {
                Some(w) => spec_dec_val(w@),
                None => 3,
            })
            &&& c.cloudreve.enabled == (o.cloudreve_enabled matches Some(v) && is_true_literal(
                v@,
            ))
            &&& (match o.cloudreve_api_url {
                Some(u) => c.cloudreve.api_url == u,
                None => c.cloudreve.api_url@ == Seq::<char>::empty(),
            })
            &&& (match o.cloudreve_username {
                Some(u) => c.cloudreve.username == u,
                None => match o.cloudreve_email {
                    Some(m) => c.cloudreve.username == m,
                    None => c.cloudreve.username@ == Seq::<char>::empty(),
                },
            })
            &&& (match o.cloudreve_password {
                Some(p) => c.cloudreve.password == p,
                None => c.cloudreve.password@ == Seq::<char>::empty(),
            })
            &&& (match o.cloudreve_download_path {
                Some(p) => c.cloudreve.download_path == p,
                None => c.cloudreve.download_path@ == "/"@,
            })
            &&& (match o.log_level {
                Some(l) => c.logging.level == l,
                None => c.logging.level@ == "info"@,
            })
            &&& c.logging.format@ == "json"@
        },
{
    let api_id: i32 = match &o.api_id {
        Some(s) => match parse_i32(s.as_str()) {
            Some(v) => v,
            None => {
                return Err(AppError::Config(String::from_str("API_ID must be an integer")));
            },
        },
        None => {
            return Err(AppError::Config(String::from_str("API_ID is required")));
        },
    };
    let bin_channel: i64 = match &o.bin_channel {
        Some(s) => match parse_i64(s.as_str()) {
            Some(v) => v,
            None => {
                return Err(AppError::Config(String::from_str("BIN_CHANNEL must be an integer")));
            },
        },
        None => {
            return Err(AppError::Config(String::from_str("BIN_CHANNEL is required")));
        },
    };
    let api_hash: String = match o.api_hash {
        Some(h) => h,
        None => {
            return Err(AppError::Config(String::from_str("API_HASH is required")));
        },
    };
    let bot_token: String = match o.bot_token {
        Some(t) => t,
        None => {
            return Err(AppError::Config(String::from_str("BOT_TOKEN is required")));
        },
    };
    let port: u16 = match &o.port {
        Some(p) => match parse_u64(p.as_str()) {
            Some(v) => {
                if v <= 65535 {
                    v as u16
                } else {
                    return Err(AppError::Config(String::from_str("PORT must be a port number")));
                }
            },
            None => {
                return Err(AppError::Config(String::from_str("PORT must be a port number")));
            },
        },
        None => 8080,
    };
    let hash_length: usize = match &o.hash_length {
        Some(h) => match parse_u64(h.as_str()) {
            Some(v) => {
                if v <= usize::MAX as u64 {
                    v as usize
                } else {
                    return Err(AppError::Config(String::from_str("HASH_LENGTH must be an integer")));
                }
            },
            None => {
                return Err(AppError::Config(String::from_str("HASH_LENGTH must be an integer")));
            },
        },
        None => 6,
    };
    let workers: usize = match &o.workers {
        Some(w) => match parse_u64(w.as_str()) {
            Some(v) => {
                if v <= usize::MAX as u64 {
                    v as usize
                } else {
                    return Err(AppError::Config(String::from_str("WORKERS must be an integer")));
                }
            },
            None => {
                return Err(AppError::Config(String::from_str("WORKERS must be an integer")));
            },
        },
        None => 3,
    };
    let has_ssl = match &o.has_ssl {
        Some(v) => parse_bool_flag(v.as_str()),
        None => false,
    };
    let no_port = match &o.no_port {
        Some(v) => parse_bool_flag(v.as_str()),
        None => false,
    };
    let cloudreve_enabled = match &o.cloudreve_enabled {
        Some(v) => parse_bool_flag(v.as_str()),
        None => false,
    };
    let bind_address = match o.bind_address {
        Some(b) => b,
        None => String::from_str("0.0.0.0"),
    };
    let api_url = match o.cloudreve_api_url {
        Some(u) => u,
        None => String::new(),
    };
    let username = match o.cloudreve_username {
        Some(u) => u,
        None => match o.cloudreve_email {
            Some(m) => m,
            None => String::new(),
        },
    };
    let password = match o.cloudreve_password {
        Some(p) => p,
        None => String::new(),
    };
    let download_path = match o.cloudreve_download_path {
        Some(p) => p,
        None => String::from_str("/"),
    };
    let level = match o.log_level {
        Some(l) => l,
        None => String::from_str("info"),
    };
    Ok(
        Config {
            telegram: TelegramConfig {
                api_id,
                api_hash,
                bot_token,
                bin_channel,
                multi_tokens: o.multi_tokens,
            },
            server: ServerConfig {
                port,
                bind_address,
                hash_length,
                fqdn: o.fqdn,
                has_ssl,
                no_port,
                workers,
            },
            cloudreve: CloudreveConfig {
                enabled: cloudreve_enabled,
                api_url,
                username,
                password,
                download_path,
            },
            logging: LoggingConfig { level, format: String::from_str("json") },
        },
    )
}

} // verus!
