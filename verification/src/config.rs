//! The gateway's configuration and its defaults.

use vstd::prelude::*;
use crate::text::owned;

verus! {

/// The whole configuration.
pub struct Config {
    pub server: ServerConfig,
    pub database: DatabaseConfig,
    pub discord: Option<DiscordConfig>,
    pub auth: AuthConfig,
}

/// Where the gateway listens.
pub struct ServerConfig {
    pub host: String,
    pub port: u16,
    pub geoip_db_path: Option<String>,
}

/// Where the databases are.
pub struct DatabaseConfig {
    pub mysql_url: Option<String>,
    pub mongodb_url: Option<String>,
}

/// Where Discord notices go.
pub struct DiscordConfig {
    pub webhook_url: String,
}

/// Sessions and logins.
pub struct AuthConfig {
    pub jwt_secret: String,
    pub session_duration_hours: u64,
    pub local_email: String,
    pub local_password_hash: String,
    pub lacisoath_required_permission: i32,
    pub lacisoath_required_fid: String,
    pub internet_access_enabled: bool,
}

/// The authentication defaults: a placeholder secret, 24-hour sessions, the
/// local account `webadmin@mijeos.com` without a password hash, LacisOath
/// logins from permission 80 at facility 9966, no Internet access.
pub open spec fn is_default_auth(a: AuthConfig) -> bool {
    &&& a.jwt_secret@ == "CHANGE_ME_IN_PRODUCTION"@
    &&& a.session_duration_hours == 24
    &&& a.local_email@ == "webadmin@mijeos.com"@
    &&& a.local_password_hash@.len() == 0
    &&& a.lacisoath_required_permission == 80
    &&& a.lacisoath_required_fid@ == "9966"@
    &&& !a.internet_access_enabled
}

impl Default for AuthConfig {
    fn default() -> (a: AuthConfig)
        ensures
            is_default_auth(a),
    {
        AuthConfig {
            jwt_secret: default_jwt_secret(),
            session_duration_hours: default_session_hours(),
            local_email: default_local_email(),
            local_password_hash: String::new(),
            lacisoath_required_permission: default_required_permission(),
            lacisoath_required_fid: default_required_fid(),
            internet_access_enabled: false,
        }
    }
}

/// The signing secret when none is configured: a placeholder to be changed.
pub fn default_jwt_secret() -> (r: String)
    ensures
        r@ == "CHANGE_ME_IN_PRODUCTION"@,
{
    owned("CHANGE_ME_IN_PRODUCTION")
}

/// How long a session lasts when nothing else is configured, in hours.
pub fn default_session_hours() -> (r: u64)
    ensures
        r == 24,
{
    24
}

/// The local account's e-mail when none is configured.
pub fn default_local_email() -> (r: String)
    ensures
        r@ == "webadmin@mijeos.com"@,
{
    owned("webadmin@mijeos.com")
}

/// The permission a LacisOath user needs when none is configured.
pub fn default_required_permission() -> (r: i32)
    ensures
        r == 80,
{
    80
}

/// The facility a LacisOath user must belong to when none is configured.
pub fn default_required_fid() -> (r: String)
    ensures
        r@ == "9966"@,
{
    owned("9966")
}

/// The host listened on when none is configured: every interface.
pub fn default_host() -> (r: String)
    ensures
        r@ == "0.0.0.0"@,
{
    owned("0.0.0.0")
}

/// The port listened on when none is configured.
pub fn default_port() -> (r: u16)
    ensures
        r == 8081,
{
    8081
}

/// The configuration when none can be read: listen on `0.0.0.0:8081`, no
/// GeoIP database, no database URLs, no Discord, default authentication.
pub open spec fn is_fallback_config(c: Config) -> bool {
    &&& c.server.host@ == "0.0.0.0"@
    &&& c.server.port == 8081
    &&& c.server.geoip_db_path is None
    &&& c.database.mysql_url is None
    &&& c.database.mongodb_url is None
    &&& c.discord is None
    &&& is_default_auth(c.auth)
}

impl Config {
    /// The configuration: the one read from the configuration sources when
    /// it could be read, else the fallback (see `is_fallback_config`).
    pub fn load(read: Option<Config>) -> (c: Config)
        ensures
            read is Some ==> c == read->0,
            read is None ==> is_fallback_config(c),
    {
        match read {
            Some(c) => c,
            None => Config {
                server: ServerConfig { host: default_host(), port: default_port(), geoip_db_path: None },
                database: DatabaseConfig { mysql_url: None, mongodb_url: None },
                discord: None,
                auth: AuthConfig::default(),
            },
        }
    }
}

} // verus!
