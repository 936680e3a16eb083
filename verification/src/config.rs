//! Settings of the service.

use crate::error::{AppError, ErrorKind, ErrorView, Result};
use crate::text::{opt_text, parse_u32, parsed_u32, push_decimal, str_eq};
use vstd::prelude::*;
use vstd::std_specs::convert::FromSpecImpl;
use vstd::string::*;

verus! {

/// Where the service runs.
#[derive(Debug, Clone, Copy, PartialEq, Eq, Structural)]
pub enum Environment {
    /// Local development.
    Development,
    /// Automated tests.
    Testing,
    /// Live operation.
    Production,
}

/// The settings of the service.
#[derive(Debug)]
pub struct Config {
    /// Address the server binds to.
    pub host: String,
    /// Port the server listens on.
    pub port: u16,
    /// Prefix of every short link handed out.
    pub base_url: String,
    /// Where the database lives.
    pub database_url: String,
    /// Secret that signs tokens.
    pub jwt_secret: String,
    /// Lifetime of a token in hours.
    pub jwt_expiration_hours: u64,
    /// Requests allowed per second.
    pub rate_limit_per_second: u32,
    /// Largest burst the rate limiter lets through.
    pub rate_limit_burst: u32,
    /// Where the service runs.
    pub environment: Environment,
}

/// The model of a [`Config`].
pub struct ConfigView {
    pub host: Seq<char>,
    pub port: u16,
    pub base_url: Seq<char>,
    pub database_url: Seq<char>,
    pub jwt_secret: Seq<char>,
    pub jwt_expiration_hours: u64,
    pub rate_limit_per_second: u32,
    pub rate_limit_burst: u32,
    pub environment: Environment,
}

impl View for Config {
    type V = ConfigView;

    open spec fn view(&self) -> ConfigView {
        ConfigView {
            host: self.host@,
            port: self.port,
            base_url: self.base_url@,
            database_url: self.database_url@,
            jwt_secret: self.jwt_secret@,
            jwt_expiration_hours: self.jwt_expiration_hours,
            rate_limit_per_second: self.rate_limit_per_second,
            rate_limit_burst: self.rate_limit_burst,
            environment: self.environment,
        }
    }
}

/// The lower-case form of a text as the standard library computes it.
pub uninterp spec fn lowercase_of(s: Seq<char>) -> Seq<char>;

/// `str::to_lowercase` of the standard library: the result is the lower-case
/// form of the argument, a function of the text alone, named
/// [`lowercase_of`].
pub assume_specification[ str::to_lowercase ](s: &str) -> (r: String)
    ensures
        r@ == lowercase_of(s@),
;

/// The environment a lower-case name stands for: `production` and `prod`
/// name production, `testing` and `test` name testing, and everything else
/// development.
pub open spec fn environment_named(lowered: Seq<char>) -> Environment {
    if lowered == "production"@ || lowered == "prod"@ {
        Environment::Production
    } else if lowered == "testing"@ || lowered == "test"@ {
        Environment::Testing
    } else {
        Environment::Development
    }
}

impl Environment {
    /// Whether this is the development environment.
    pub fn is_development(&self) -> (r: bool)
        ensures
            r == (*self == Environment::Development),
    {
        matches!(self, Environment::Development)
    }

    /// Whether this is the production environment.
    pub fn is_production(&self) -> (r: bool)
        ensures
            r == (*self == Environment::Production),
    {
        matches!(self, Environment::Production)
    }

    /// The environment that an already lower-cased name stands for.
    pub fn from_lowered(lowered: &str) -> (e: Environment)
        ensures
            e == environment_named(lowered@),
    {
        if str_eq(lowered, "production") || str_eq(lowered, "prod") {
            Environment::Production
        } else if str_eq(lowered, "testing") || str_eq(lowered, "test") {
            Environment::Testing
        } else {
            Environment::Development
        }
    }
}

impl Default for Environment {
    fn default() -> (e: Self)
        ensures
            e == Environment::Development,
    {
        Environment::Development
    }
}

impl From<String> for Environment {
    /// The environment a name stands for, whatever its letter case.
    fn from(s: String) -> (e: Self) {
        let lowered = s.as_str().to_lowercase();
        Environment::from_lowered(lowered.as_str())
    }
}

impl FromSpecImpl<String> for Environment {
    open spec fn obeys_from_spec() -> bool {
        true
    }

    open spec fn from_spec(s: String) -> Self {
        environment_named(lowercase_of(s@))
    }
}

/// The secret a fresh configuration carries, which must not reach
/// production.
pub open spec fn default_secret() -> Seq<char> {
    "change-me-in-production"@
}

/// The settings a fresh configuration carries.
pub open spec fn default_config() -> ConfigView {
    ConfigView {
        host: "127.0.0.1"@,
        port: 3000,
        base_url: "http://localhost:3000"@,
        database_url: "sqlite://data/urls.db?mode=rwc"@,
        jwt_secret: default_secret(),
        jwt_expiration_hours: 24,
        rate_limit_per_second: 10,
        rate_limit_burst: 30,
        environment: Environment::Development,
    }
}

/// What is wrong with a configuration, if anything: in production the
/// secret must differ from the default one, and the port must not be 0.
pub open spec fn config_fault(c: ConfigView) -> Option<Seq<char>> {
    if c.environment == Environment::Production && c.jwt_secret == default_secret() {
        Some("JWT_SECRET must be changed in production"@)
    } else if c.port == 0 {
        Some("PORT cannot be 0"@)
    } else {
        None
    }
}

/// The text of a host and a port joined by a colon.
pub open spec fn address_text(host: Seq<char>, port: u16) -> Seq<char> {
    host + seq![':'] + crate::text::decimal(port as nat)
}

impl Default for Config {
    fn default() -> (c: Self)
        ensures
            c@ == default_config(),
    {
        Config {
            host: "127.0.0.1".to_string(),
            port: 3000,
            base_url: "http://localhost:3000".to_string(),
            database_url: "sqlite://data/urls.db?mode=rwc".to_string(),
            jwt_secret: "change-me-in-production".to_string(),
            jwt_expiration_hours: 24,
            rate_limit_per_second: 10,
            rate_limit_burst: 30,
            environment: Environment::Development,
        }
    }
}

impl Clone for Config {
    fn clone(&self) -> (c: Self)
        ensures
            c@ == self@,
    {
        Config {
            host: self.host.clone(),
            port: self.port,
            base_url: self.base_url.clone(),
            database_url: self.database_url.clone(),
            jwt_secret: self.jwt_secret.clone(),
            jwt_expiration_hours: self.jwt_expiration_hours,
            rate_limit_per_second: self.rate_limit_per_second,
            rate_limit_burst: self.rate_limit_burst,
            environment: self.environment,
        }
    }
}

impl Config {
    /// Checks the configuration: fails with `Config` and the fault's text
    /// exactly when [`config_fault`] finds one.
    pub fn validate(&self) -> (r: Result<()>)
        ensures
            match config_fault(self@) {
                Some(text) => r is Err && r->Err_0@ == (ErrorView {
                    kind: ErrorKind::Config,
                    detail: text,
                }),
                None => r is Ok,
            },
    {
        if self.environment.is_production() && str_eq(
            self.jwt_secret.as_str(),
            "change-me-in-production",
        ) {
            return Err(AppError::Config("JWT_SECRET must be changed in production".to_string()));
        }
        if self.port == 0 {
            return Err(AppError::Config("PORT cannot be 0".to_string()));
        }
        Ok(())
    }

    /// The address the server binds to, as `host:port`.
    pub fn server_addr(&self) -> (addr: String)
        ensures
            addr@ == address_text(self.host@, self.port),
    {
        let mut addr = self.host.clone();
        addr.push(':');
        push_decimal(&mut addr, self.port as u64);
        addr
    }
}

/// Step-by-step construction of a [`Config`], starting from the defaults.
#[derive(Debug)]
pub struct ConfigBuilder {
    config: Config,
}

impl View for ConfigBuilder {
    type V = ConfigView;

    closed spec fn view(&self) -> ConfigView {
        self.config@
    }
}

impl Default for ConfigBuilder {
    fn default() -> (b: Self)
        ensures
            b@ == default_config(),
    {
        ConfigBuilder::new()
    }
}

impl ConfigBuilder {
    /// A builder holding the default settings.
    pub fn new() -> (b: Self)
        ensures
            b@ == default_config(),
    {
        ConfigBuilder { config: Config::default() }
    }

    /// Sets the port.
    pub fn port(self, port: u16) -> (b: Self)
        ensures
            b@ == (ConfigView { port, ..self@ }),
    {
        let mut b = self;
        b.config.port = port;
        b
    }

    /// Sets the host.
    pub fn host(self, host: &str) -> (b: Self)
        ensures
            b@ == (ConfigView { host: host@, ..self@ }),
    {
        let mut b = self;
        b.config.host = host.to_string();
        b
    }

    /// Sets the prefix of short links.
    pub fn base_url(self, url: &str) -> (b: Self)
        ensures
            b@ == (ConfigView { base_url: url@, ..self@ }),
    {
        let mut b = self;
        b.config.base_url = url.to_string();
        b
    }

    /// Sets the database location.
    pub fn database_url(self, url: &str) -> (b: Self)
        ensures
            b@ == (ConfigView { database_url: url@, ..self@ }),
    {
        let mut b = self;
        b.config.database_url = url.to_string();
        b
    }

    /// Sets the token secret.
    pub fn jwt_secret(self, secret: &str) -> (b: Self)
        ensures
            b@ == (ConfigView { jwt_secret: secret@, ..self@ }),
    {
        let mut b = self;
        b.config.jwt_secret = secret.to_string();
        b
    }

    /// Sets the environment.
    pub fn environment(self, env: Environment) -> (b: Self)
        ensures
            b@ == (ConfigView { environment: env, ..self@ }),
    {
        let mut b = self;
        b.config.environment = env;
        b
    }

    /// The configuration built so far.
    pub fn build(self) -> (c: Config)
        ensures
            c@ == self@,
    {
        self.config
    }

    /// The configuration built so far, if it is valid; otherwise the fault
    /// that [`Config::validate`] reports.
    pub fn build_validated(self) -> (r: Result<Config>)
        ensures
            match config_fault(self@) {
                Some(text) => r is Err && r->Err_0@ == (ErrorView {
                    kind: ErrorKind::Config,
                    detail: text,
                }),
                None => r is Ok && r->Ok_0@ == self@,
            },
    {
        let config = self.build();
        match config.validate() {
            Ok(()) => Ok(config),
            Err(e) => Err(e),
        }
    }
}

// ---------------------------------------------------------------------
// Settings from the environment
// ---------------------------------------------------------------------

/// The values of the environment variables that settings are read from;
/// `None` for a variable that is not set.
#[derive(Debug)]
pub struct EnvVars {
    /// `HOST`
    pub host: Option<String>,
    /// `PORT`
    pub port: Option<String>,
    /// `BASE_URL`
    pub base_url: Option<String>,
    /// `DATABASE_URL`
    pub database_url: Option<String>,
    /// `JWT_SECRET`
    pub jwt_secret: Option<String>,
    /// `JWT_EXPIRATION_HOURS`
    pub jwt_expiration_hours: Option<String>,
    /// `RATE_LIMIT_PER_SECOND`
    pub rate_limit_per_second: Option<String>,
    /// `RATE_LIMIT_BURST`
    pub rate_limit_burst: Option<String>,
    /// `ENVIRONMENT`
    pub environment: Option<String>,
}

/// The model of [`EnvVars`].
pub struct EnvVarsView {
    pub host: Option<Seq<char>>,
    pub port: Option<Seq<char>>,
    pub base_url: Option<Seq<char>>,
    pub database_url: Option<Seq<char>>,
    pub jwt_secret: Option<Seq<char>>,
    pub jwt_expiration_hours: Option<Seq<char>>,
    pub rate_limit_per_second: Option<Seq<char>>,
    pub rate_limit_burst: Option<Seq<char>>,
    pub environment: Option<Seq<char>>,
}

impl View for EnvVars {
    type V = EnvVarsView;

    open spec fn view(&self) -> EnvVarsView {
        EnvVarsView {
            host: opt_text(self.host),
            port: opt_text(self.port),
            base_url: opt_text(self.base_url),
            database_url: opt_text(self.database_url),
            jwt_secret: opt_text(self.jwt_secret),
            jwt_expiration_hours: opt_text(self.jwt_expiration_hours),
            rate_limit_per_second: opt_text(self.rate_limit_per_second),
            rate_limit_burst: opt_text(self.rate_limit_burst),
            environment: opt_text(self.environment),
        }
    }
}

impl Default for EnvVars {
    fn default() -> (v: Self)
        ensures
            v@ == (EnvVarsView {
                host: None,
                port: None,
                base_url: None,
                database_url: None,
                jwt_secret: None,
                jwt_expiration_hours: None,
                rate_limit_per_second: None,
                rate_limit_burst: None,
                environment: None,
            }),
    {
        EnvVars {
            host: None,
            port: None,
            base_url: None,
            database_url: None,
            jwt_secret: None,
            jwt_expiration_hours: None,
            rate_limit_per_second: None,
            rate_limit_burst: None,
            environment: None,
        }
    }
}

/// The text of a variable, or the default when it is not set.
pub open spec fn text_or(value: Option<Seq<char>>, default: Seq<char>) -> Seq<char> {
    match value {
        Some(text) => text,
        None => default,
    }
}

/// The number in a variable, or the default when the variable is not set
/// or does not hold a 32-bit number.
pub open spec fn number_or(value: Option<Seq<char>>, default: u32) -> u32 {
    match value {
        Some(text) => match parsed_u32(text) {
            Some(n) => n,
            None => default,
        },
        None => default,
    }
}

/// The settings that the environment asks for: every variable that is set
/// replaces a default, numbers that cannot be read are ignored, and a port
/// beyond 65535 is taken modulo 65536.
pub open spec fn config_from(vars: EnvVarsView) -> ConfigView {
    ConfigView {
        host: text_or(vars.host, default_config().host),
        port: (number_or(vars.port, 3000) % 65536) as u16,
        base_url: text_or(vars.base_url, default_config().base_url),
        database_url: text_or(vars.database_url, default_config().database_url),
        jwt_secret: text_or(vars.jwt_secret, default_config().jwt_secret),
        jwt_expiration_hours: number_or(vars.jwt_expiration_hours, 24) as u64,
        rate_limit_per_second: number_or(vars.rate_limit_per_second, 10),
        rate_limit_burst: number_or(vars.rate_limit_burst, 30),
        environment: environment_named(lowercase_of(text_or(vars.environment, "development"@))),
    }
}

/// The text of a variable, or the default when it is not set.
pub fn value_or(value: &Option<String>, default: &str) -> (r: String)
    ensures
        r@ == text_or(opt_text(*value), default@),
{
    match value {
        Some(text) => text.clone(),
        None => default.to_string(),
    }
}

/// The number in a variable, or the default; see [`number_or`].
pub fn parsed_or(value: &Option<String>, default: u32) -> (r: u32)
    ensures
        r == number_or(opt_text(*value), default),
{
    match value {
        Some(text) => match parse_u32(text.as_str()) {
            Some(n) => n,
            None => default,
        },
        None => default,
    }
}

impl Config {
    /// The settings that the given values of the environment variables ask
    /// for; see [`config_from`].
    pub fn from_vars(vars: &EnvVars) -> (c: Self)
        ensures
            c@ == config_from(vars@),
    {
        let environment = value_or(&vars.environment, "development");
        Config {
            host: value_or(&vars.host, "127.0.0.1"),
            port: (parsed_or(&vars.port, 3000) % 65536) as u16,
            base_url: value_or(&vars.base_url, "http://localhost:3000"),
            database_url: value_or(&vars.database_url, "sqlite://data/urls.db?mode=rwc"),
            jwt_secret: value_or(&vars.jwt_secret, "change-me-in-production"),
            jwt_expiration_hours: parsed_or(&vars.jwt_expiration_hours, 24) as u64,
            rate_limit_per_second: parsed_or(&vars.rate_limit_per_second, 10),
            rate_limit_burst: parsed_or(&vars.rate_limit_burst, 30),
            environment: Environment::from(environment),
        }
    }
}

} // verus!
