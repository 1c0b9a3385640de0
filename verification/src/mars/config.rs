//! The service's configuration: where the server listens, how often it
//! refreshes, and how long a weather request may take.

use vstd::prelude::*;

verus! {

/// Port the server binds when the configuration names none.
pub const DEFAULT_PORT: u16 = 3000;
/// Seconds between two refreshes of the weather when the configuration names none.
pub const DEFAULT_REFRESH_INTERVAL_SECS: u64 = 3600;
/// Seconds a weather request may take when the configuration names none.
pub const DEFAULT_REQUEST_TIMEOUT_SECS: u64 = 5;
/// Seconds to connect to the feed when the configuration names none.
pub const DEFAULT_CONNECT_TIMEOUT_SECS: u64 = 3;

/// `std::io::Error`, carried through as the cause of an unreadable file.
#[verifier::external_type_specification]
#[verifier::external_body]
pub struct ExIoError(std::io::Error);

/// `toml::de::Error`, carried through as the cause of an invalid file.
#[verifier::external_type_specification]
#[verifier::external_body]
pub struct ExTomlError(toml::de::Error);

/// Why the configuration could not be loaded.
#[derive(Debug)]
pub enum ConfigError {
    /// The file exists but could not be read.
    Io(std::io::Error),
    /// The file is not a valid configuration.
    Parse(toml::de::Error),
}

/// The `Display` text of an I/O error. Nothing is stated of it: it may hold a
/// message of the operating system.
#[verifier::external_body]
fn io_error_text(e: &std::io::Error) -> String {
    format!("{}", e)
}

/// The `Display` text of a `toml` parse error. Nothing is stated of it: `toml`
/// describes the error in its own words.
#[verifier::external_body]
fn toml_error_text(e: &toml::de::Error) -> String {
    format!("{}", e)
}

impl ConfigError {
    /// The first words of the message of an error, which say what failed.
    pub open spec fn headline(&self) -> Seq<char> {
        match self {
            ConfigError::Io(_) => "failed to read config file: "@,
            ConfigError::Parse(_) => "failed to parse config file: "@,
        }
    }

    /// The message of an error whose cause reads `cause`: the headline, then the cause.
    pub fn with_cause(&self, cause: &str) -> (r: String)
        ensures
            r@ == self.headline() + cause@,
            *self is Io ==> r@ == "failed to read config file: "@ + cause@,
            *self is Parse ==> r@ == "failed to parse config file: "@ + cause@,
    {
        let mut m: String = match self {
            ConfigError::Io(_) => "failed to read config file: ".to_owned(),
            ConfigError::Parse(_) => "failed to parse config file: ".to_owned(),
        };
        m.append(cause);
        m
    }

    /// The message of an error: what failed, then the cause's own text.
    pub fn message(&self) -> (r: String)
        ensures
            self.headline().is_prefix_of(r@),
            *self is Io ==> "failed to read config file: "@.is_prefix_of(r@),
            *self is Parse ==> "failed to parse config file: "@.is_prefix_of(r@),
    {
        let cause: String = match self {
            ConfigError::Io(e) => io_error_text(e),
            ConfigError::Parse(e) => toml_error_text(e),
        };
        let r: String = self.with_cause(cause.as_str());
        proof {
            assert(self.headline().is_prefix_of(r@)) by {
                assert(r@.subrange(0, self.headline().len() as int) =~= self.headline());
            }
        }
        r
    }
}

/// An unreadable file is reported as `failed to read config file: ` and an
/// invalid one as `failed to parse config file: `, each followed by its cause.
pub proof fn lemma_error_headlines(e: ConfigError)
    ensures
        e is Io ==> e.headline() == "failed to read config file: "@,
        e is Parse ==> e.headline() == "failed to parse config file: "@,
{
}

/// An IP address, of either version.
#[derive(Clone, Copy, Debug, PartialEq, Eq, Structural)]
pub enum Host {
    V4(u8, u8, u8, u8),
    V6(u16, u16, u16, u16, u16, u16, u16, u16),
}

/// The unspecified IPv4 address `0.0.0.0`: every interface.
pub open spec fn all_interfaces() -> Host {
    Host::V4(0, 0, 0, 0)
}

/// An IP address and a port.
#[derive(Clone, Copy, Debug, PartialEq, Eq, Structural)]
pub struct SocketAddress {
    pub host: Host,
    pub port: u16,
}

/// Where the server listens and how often it refreshes the weather.
#[derive(Clone, Copy, Debug, PartialEq, Eq, Structural)]
pub struct ServerConfig {
    pub host: Host,
    pub port: u16,
    pub refresh_interval_secs: u64,
}

/// Limits of a request to the weather feed.
#[derive(Clone, Copy, Debug, PartialEq, Eq, Structural)]
pub struct WeatherConfig {
    pub request_timeout_secs: u64,
    pub connect_timeout_secs: u64,
}

/// The whole configuration.
#[derive(Clone, Copy, Debug, PartialEq, Eq, Structural)]
pub struct Config {
    pub server: ServerConfig,
    pub weather: WeatherConfig,
}

/// The built-in server settings: every interface, port 3000, hourly refresh.
pub open spec fn default_server_config() -> ServerConfig {
    ServerConfig {
        host: all_interfaces(),
        port: DEFAULT_PORT,
        refresh_interval_secs: DEFAULT_REFRESH_INTERVAL_SECS,
    }
}

/// The built-in request limits: 5 seconds a request, 3 to connect.
pub open spec fn default_weather_config() -> WeatherConfig {
    WeatherConfig {
        request_timeout_secs: DEFAULT_REQUEST_TIMEOUT_SECS,
        connect_timeout_secs: DEFAULT_CONNECT_TIMEOUT_SECS,
    }
}

/// The built-in configuration listens on every interface (`0.0.0.0`) at port
/// 3000, refreshes the weather every hour, and gives a weather request 5
/// seconds, 3 of them to connect.
pub proof fn lemma_builtin_configuration()
    ensures
        default_server_config().host == Host::V4(0, 0, 0, 0),
        default_server_config().port == 3000,
        default_server_config().refresh_interval_secs == 3600,
        default_weather_config().request_timeout_secs == 5,
        default_weather_config().connect_timeout_secs == 3,
{
}

impl ServerConfig {
    /// The address the server binds: its host and port.
    pub fn bind_addr(&self) -> (r: SocketAddress)
        ensures
            r.host == self.host,
            r.port == self.port,
    {
        SocketAddress { host: self.host, port: self.port }
    }
}

impl Default for ServerConfig {
    fn default() -> (r: Self)
        ensures
            r == default_server_config(),
            r.host == Host::V4(0, 0, 0, 0),
            r.port == 3000,
            r.refresh_interval_secs == 3600,
    {
        ServerConfig {
            host: Host::V4(0, 0, 0, 0),
            port: DEFAULT_PORT,
            refresh_interval_secs: DEFAULT_REFRESH_INTERVAL_SECS,
        }
    }
}

impl Default for WeatherConfig {
    fn default() -> (r: Self)
        ensures
            r == default_weather_config(),
            r.request_timeout_secs == 5,
            r.connect_timeout_secs == 3,
    {
        WeatherConfig {
            request_timeout_secs: DEFAULT_REQUEST_TIMEOUT_SECS,
            connect_timeout_secs: DEFAULT_CONNECT_TIMEOUT_SECS,
        }
    }
}

impl Default for Config {
    fn default() -> (r: Self)
        ensures
            r.server == default_server_config(),
            r.weather == default_weather_config(),
    {
        Config { server: ServerConfig::default(), weather: WeatherConfig::default() }
    }
}

/// The value a configuration names for a setting, or else the built-in one.
pub open spec fn named_or<T>(named: Option<T>, builtin: T) -> T {
    match named {
        Some(v) => v,
        None => builtin,
    }
}

/// The server settings that a configuration file names; `None` for a setting it
/// leaves out.
#[derive(Clone, Copy, Debug, PartialEq, Eq, Structural)]
pub struct ServerOverrides {
    pub host: Option<Host>,
    pub port: Option<u16>,
    pub refresh_interval_secs: Option<u64>,
}

/// The request limits that a configuration file names.
#[derive(Clone, Copy, Debug, PartialEq, Eq, Structural)]
pub struct WeatherOverrides {
    pub request_timeout_secs: Option<u64>,
    pub connect_timeout_secs: Option<u64>,
}

/// Every setting that a configuration file names.
#[derive(Clone, Copy, Debug, PartialEq, Eq, Structural)]
pub struct ConfigOverrides {
    pub server: ServerOverrides,
    pub weather: WeatherOverrides,
}

/// The configuration that a file naming `o` describes: each setting it names,
/// and the built-in value of every other.
pub open spec fn configured(o: ConfigOverrides) -> Config {
    Config {
        server: ServerConfig {
            host: named_or(o.server.host, default_server_config().host),
            port: named_or(o.server.port, default_server_config().port),
            refresh_interval_secs: named_or(
                o.server.refresh_interval_secs,
                default_server_config().refresh_interval_secs,
            ),
        },
        weather: WeatherConfig {
            request_timeout_secs: named_or(
                o.weather.request_timeout_secs,
                default_weather_config().request_timeout_secs,
            ),
            connect_timeout_secs: named_or(
                o.weather.connect_timeout_secs,
                default_weather_config().connect_timeout_secs,
            ),
        },
    }
}

/// A file that names no setting.
pub open spec fn no_overrides() -> ConfigOverrides {
    ConfigOverrides {
        server: ServerOverrides { host: None, port: None, refresh_interval_secs: None },
        weather: WeatherOverrides { request_timeout_secs: None, connect_timeout_secs: None },
    }
}

impl Config {
    /// The configuration of a file that names the settings `o`: a partial file
    /// overrides only the settings it names and leaves the rest at their
    /// built-in values.
    pub fn from_overrides(o: ConfigOverrides) -> (r: Config)
        ensures
            r == configured(o),
    {
        let builtin: Config = Config::default();
        Config {
            server: ServerConfig {
                host: match o.server.host {
                    Some(h) => h,
                    None => builtin.server.host,
                },
                port: match o.server.port {
                    Some(p) => p,
                    None => builtin.server.port,
                },
                refresh_interval_secs: match o.server.refresh_interval_secs {
                    Some(v) => v,
                    None => builtin.server.refresh_interval_secs,
                },
            },
            weather: WeatherConfig {
                request_timeout_secs: match o.weather.request_timeout_secs {
                    Some(v) => v,
                    None => builtin.weather.request_timeout_secs,
                },
                connect_timeout_secs: match o.weather.connect_timeout_secs {
                    Some(v) => v,
                    None => builtin.weather.connect_timeout_secs,
                },
            },
        }
    }
}

/// An empty configuration file gives the built-in configuration.
pub proof fn lemma_empty_file_gives_defaults()
    ensures
        configured(no_overrides()).server == default_server_config(),
        configured(no_overrides()).weather == default_weather_config(),
{
}

/// A partial file overrides only the settings it names: every setting it names
/// takes the named value, and every other keeps its built-in value.
pub proof fn lemma_partial_file_overrides_only_named(o: ConfigOverrides)
    ensures
        o.server.host matches Some(h) ==> configured(o).server.host == h,
        o.server.host is None ==> configured(o).server.host == all_interfaces(),
        o.server.port matches Some(p) ==> configured(o).server.port == p,
        o.server.port is None ==> configured(o).server.port == DEFAULT_PORT,
        o.server.refresh_interval_secs matches Some(v) ==> configured(o).server.refresh_interval_secs == v,
        o.server.refresh_interval_secs is None ==> configured(o).server.refresh_interval_secs
            == DEFAULT_REFRESH_INTERVAL_SECS,
        o.weather.request_timeout_secs matches Some(v) ==> configured(o).weather.request_timeout_secs == v,
        o.weather.request_timeout_secs is None ==> configured(o).weather.request_timeout_secs
            == DEFAULT_REQUEST_TIMEOUT_SECS,
        o.weather.connect_timeout_secs matches Some(v) ==> configured(o).weather.connect_timeout_secs == v,
        o.weather.connect_timeout_secs is None ==> configured(o).weather.connect_timeout_secs
            == DEFAULT_CONNECT_TIMEOUT_SECS,
{
}

/// What reading the configuration file gave.
#[derive(Debug)]
pub enum ConfigSource {
    /// The file's text.
    Text(String),
    /// There is no such file.
    Missing,
    /// The file is there but could not be read.
    Unreadable(std::io::Error),
}

/// What loading the configuration does next.
#[derive(Debug)]
pub enum LoadStep {
    /// Parse this text as the configuration.
    Parse(String),
    /// Run with the built-in configuration.
    UseDefaults,
    /// Give up with this error.
    Fail(ConfigError),
}

impl Config {
    /// Decides what to do with the outcome of reading the configuration file.
    /// A missing file is no error: the service runs with its built-in
    /// configuration. A file that cannot be read is an I/O error; any text is
    /// handed on to be parsed.
    pub fn load_step(source: ConfigSource) -> (r: LoadStep)
        ensures
            source matches ConfigSource::Text(t) ==> r matches LoadStep::Parse(u) && u@ == t@,
            source is Missing ==> r is UseDefaults,
            source matches ConfigSource::Unreadable(e) ==> r matches LoadStep::Fail(ConfigError::Io(f)) && f == e,
    {
        match source {
            ConfigSource::Text(t) => LoadStep::Parse(t),
            ConfigSource::Missing => LoadStep::UseDefaults,
            ConfigSource::Unreadable(e) => LoadStep::Fail(ConfigError::Io(e)),
        }
    }
}

} // verus!
