//! Server configuration and its validation rules.
//!
//! Values come from four layers, strongest first: command-line options,
//! environment variables, the configuration file, and the defaults below.
//! The layering itself is performed by the unverified shell; the defaults
//! and the validation rules are fixed here.

use vstd::prelude::*;

verus! {

/// Everything the server needs to run.
pub struct Config {
    /// The shared store's connection URL; must bear a `redis://` or
    /// `rediss://` scheme.
    pub redis_url: String,
    /// The bind address; must be non-empty.
    pub host: String,
    /// The listening port; must be non-zero.
    pub port: u16,
    /// The log filter threshold.
    pub log_level: String,
}

/// The command-line layer: every option may be absent, falling through to
/// the next layer.
pub struct CliArgs {
    pub redis_url: Option<String>,
    pub host: Option<String>,
    pub port: Option<u16>,
    pub log_level: Option<String>,
    /// The configuration file path; `config.yaml` when absent.
    pub config: Option<String>,
}

impl Default for Config {
    /// The built-in defaults: a local store, a local bind on port 3000,
    /// and `info` logging.
    fn default() -> (r: Self)
        ensures
            r.redis_url@ == "redis://127.0.0.1/"@,
            r.host@ == "127.0.0.1"@,
            r.port == 3000,
            r.log_level@ == "info"@,
    {
        Config {
            redis_url: String::from_str("redis://127.0.0.1/"),
            host: String::from_str("127.0.0.1"),
            port: 3000,
            log_level: String::from_str("info"),
        }
    }
}

impl Config {
    /// Whether the configuration is acceptable: non-zero port, a store URL
    /// with a `redis://` or `rediss://` scheme, and a non-empty host.
    pub open spec fn spec_valid(&self) -> bool {
        &&& self.port != 0
        &&& (crate::text::spec_has_prefix(self.redis_url@, "redis://"@) || crate::text::spec_has_prefix(
            self.redis_url@,
            "rediss://"@,
        ))
        &&& self.host@.len() > 0
    }

    /// Checks the configuration, naming the first rule broken: the port
    /// range, then the store URL scheme, then the empty host.
    pub fn validate(&self) -> (r: Result<(), String>)
        ensures
            r is Ok <==> self.spec_valid(),
            self.port == 0 ==> (r matches Err(m) && m@ == "포트는 1-65535 범위여야 합니다: 0"@),
            self.port != 0 && !crate::text::spec_has_prefix(self.redis_url@, "redis://"@)
                && !crate::text::spec_has_prefix(self.redis_url@, "rediss://"@) ==> (
            r matches Err(m) && m@ == "Redis URL은 redis:// 또는 rediss:// 로 시작해야 합니다: "@
                + self.redis_url@),
            self.port != 0 && (crate::text::spec_has_prefix(self.redis_url@, "redis://"@)
                || crate::text::spec_has_prefix(self.redis_url@, "rediss://"@)) && self.host@.len()
                == 0 ==> (r matches Err(m) && m@ == "호스트는 빈 문자열일 수 없습니다"@),
    {
        if self.port == 0 {
            return Err(String::from_str("포트는 1-65535 범위여야 합니다: 0"));
        }
        if !crate::text::has_prefix(self.redis_url.as_str(), "redis://")
            && !crate::text::has_prefix(self.redis_url.as_str(), "rediss://") {
            let mut m = String::from_str("Redis URL은 redis:// 또는 rediss:// 로 시작해야 합니다: ");
            m.append(self.redis_url.as_str());
            return Err(m);
        }
        if self.host.as_str().unicode_len() == 0 {
            return Err(String::from_str("호스트는 빈 문자열일 수 없습니다"));
        }
        Ok(())
    }
}

} // verus!
