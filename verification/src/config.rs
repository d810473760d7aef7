//! The configuration of the device: defaults, stored settings laid over
//! them, and the settings that the network driver is started with.
//!
//! The defaults are read once at startup and kept in a `DefaultConfig`. A
//! setting that the user can change is stored elsewhere: a caller reads the
//! stored value and hands it in, and the stored value wins over the default.

use vstd::prelude::*;
use crate::ipv4::Ipv4Addr;
use crate::ipv4::address_of;
use crate::ipv4::parse_ipv4;
use vstd::utf8::encode_utf8;
use vstd::string::StringSliceAdditionalSpecFns;

verus! {

/// A fixed address for the station.
#[derive(Debug)]
pub struct StaticWifiConfig {
    pub addr: String,
    pub gateway: String,
    pub mask: u8,
}

/// The network that the station joins.
#[derive(Debug)]
pub struct WifiConfig {
    pub ssid: Option<String>,
    pub password: Option<String>,
    pub hostname: String,
    pub static_ip: Option<StaticWifiConfig>,
}

/// The network that the device hosts.
#[derive(Debug)]
pub struct AccessPointConfig {
    pub ssid: String,
    pub password: Option<String>,
    pub hidden: bool,
    pub channel: Option<u8>,
    pub gateway: String,
}

/// The HTTP server.
#[derive(Debug)]
pub struct HttpConfig {
    pub port: u16,
}

/// The bus that drives the actuator.
#[derive(Debug)]
pub struct IoConfig {
    pub sda_pin: u8,
    pub scl_pin: u8,
    pub address: u8,
    pub message: Vec<u8>,
    pub baudrate: u32,
    pub timeout: u32,
}

/// The seconds between two pulses in auto mode.
#[derive(Debug)]
pub struct FreqConfig {
    pub lower_bound: u32,
    pub upper_bound: u32,
    pub default_min: u32,
    pub default_max: u32,
}

/// The defaults of the device.
#[derive(Debug)]
pub struct Config {
    pub wifi: WifiConfig,
    pub access_point: AccessPointConfig,
    pub http: HttpConfig,
    pub io: IoConfig,
    pub frequency: FreqConfig,
}

/// Why a setting cannot be had or used.
#[derive(Debug, Clone, Copy, PartialEq, Eq, Structural)]
pub enum ConfigError {
    /// The defaults were never set.
    NotInitialized,
    /// The access point has no SSID.
    EmptyAccessPointSsid,
    /// An SSID is longer than `MAX_SSID_LEN` bytes.
    SsidTooLong,
    /// A password is longer than `MAX_PASSWORD_LEN` bytes.
    PasswordTooLong,
    /// The hostname is longer than `MAX_HOSTNAME_LEN` bytes.
    HostnameTooLong,
    /// An address is not in dotted-decimal form.
    InvalidAddress,
    /// A gateway address is not in dotted-decimal form.
    InvalidGateway,
    /// The device has no pin of this number.
    InvalidPin { pin: u8 },
    /// The pin of this number was handed out before.
    PinInUse { pin: u8 },
    /// The bounds of the wait in auto mode leave no room for a wait.
    EmptyFrequencyRange,
}

/// The place of the defaults: empty until they are set, and then fixed.
#[derive(Debug)]
pub struct DefaultConfig {
    config: Option<Config>,
}

impl View for DefaultConfig {
    type V = Option<Config>;

    /// The defaults, once they are set.
    closed spec fn view(&self) -> Option<Config> {
        self.config
    }
}

impl DefaultConfig {
    /// A place without defaults.
    pub fn new() -> (store: Self)
        ensures
            store@ is None,
    {
        Self { config: None }
    }
}

/// Sets the defaults, once: a second call leaves the first ones in place
/// and says so by returning `false`.
pub fn init_config(store: &mut DefaultConfig, config: Config) -> (fresh: bool)
    ensures
        fresh == (old(store)@ is None),
        fresh ==> final(store)@ == Some(config),
        !fresh ==> final(store)@ == old(store)@,
{
    if store.config.is_some() {
        false
    } else {
        store.config = Some(config);
        true
    }
}

/// The defaults, or the error of a place where none were set.
pub fn default_config(store: &DefaultConfig) -> (config: Result<&Config, ConfigError>)
    ensures
        store@ is None ==> config == Err::<&Config, ConfigError>(ConfigError::NotInitialized),
        store@ matches Some(c) ==> config == Ok::<&Config, ConfigError>(&c),
{
    match &store.config {
        Some(config) => Ok(config),
        None => Err(ConfigError::NotInitialized),
    }
}

/// What a getter returns: the value that `pick` takes from the defaults, or
/// the error of a place without defaults.
pub open spec fn from_defaults<T>(store: &DefaultConfig, pick: spec_fn(Config) -> T) -> Result<
    T,
    ConfigError,
> {
    match store@ {
        Some(config) => Ok(pick(config)),
        None => Err(ConfigError::NotInitialized),
    }
}

/// The stored value where there is one, the default otherwise.
pub open spec fn stored_or<T>(stored: Option<T>, default: T) -> T {
    match stored {
        Some(value) => value,
        None => default,
    }
}

/// The stored text where there is one, the default text otherwise.
pub open spec fn stored_or_text(stored: Option<String>, default: Option<String>) -> Option<String> {
    match stored {
        Some(value) => Some(value),
        None => default,
    }
}

fn clone_text(text: &Option<String>) -> (copy: Option<String>)
    ensures
        copy == *text,
{
    match text {
        Some(value) => Some(value.clone()),
        None => None,
    }
}

/// The hostname of the station.
pub fn wifi_hostname(store: &DefaultConfig) -> (hostname: Result<String, ConfigError>)
    ensures
        hostname == from_defaults(store, |c: Config| c.wifi.hostname),
{
    let config = default_config(store)?;
    Ok(config.wifi.hostname.clone())
}

/// The SSID of the access point.
pub fn access_point_ssid(store: &DefaultConfig) -> (ssid: Result<String, ConfigError>)
    ensures
        ssid == from_defaults(store, |c: Config| c.access_point.ssid),
{
    let config = default_config(store)?;
    Ok(config.access_point.ssid.clone())
}

/// The password of the access point, if it has one.
pub fn access_point_password(store: &DefaultConfig) -> (password: Result<
    Option<String>,
    ConfigError,
>)
    ensures
        password == from_defaults(store, |c: Config| c.access_point.password),
{
    let config = default_config(store)?;
    Ok(clone_text(&config.access_point.password))
}

/// Whether the access point hides its SSID.
pub fn access_point_hidden(store: &DefaultConfig) -> (hidden: Result<bool, ConfigError>)
    ensures
        hidden == from_defaults(store, |c: Config| c.access_point.hidden),
{
    let config = default_config(store)?;
    Ok(config.access_point.hidden)
}

/// The channel of the access point, if one is set.
pub fn access_point_channel(store: &DefaultConfig) -> (channel: Result<Option<u8>, ConfigError>)
    ensures
        channel == from_defaults(store, |c: Config| c.access_point.channel),
{
    let config = default_config(store)?;
    Ok(config.access_point.channel)
}

/// The port of the HTTP server.
pub fn http_port(store: &DefaultConfig) -> (port: Result<u16, ConfigError>)
    ensures
        port == from_defaults(store, |c: Config| c.http.port),
{
    let config = default_config(store)?;
    Ok(config.http.port)
}

/// The bus address of the actuator.
pub fn io_address(store: &DefaultConfig) -> (address: Result<u8, ConfigError>)
    ensures
        address == from_defaults(store, |c: Config| c.io.address),
{
    let config = default_config(store)?;
    Ok(config.io.address)
}

/// The bytes that activate the actuator.
pub fn io_message(store: &DefaultConfig) -> (message: Result<Vec<u8>, ConfigError>)
    ensures
        store@ is None ==> message == Err::<Vec<u8>, ConfigError>(ConfigError::NotInitialized),
        store@ matches Some(c) ==> (message matches Ok(bytes) && bytes@ == c.io.message@),
{
    let config = default_config(store)?;
    let bytes = config.io.message.clone();
    assert(bytes@ =~= config.io.message@);
    Ok(bytes)
}

/// The clock rate of the bus.
pub fn io_baudrate(store: &DefaultConfig) -> (baudrate: Result<u32, ConfigError>)
    ensures
        baudrate == from_defaults(store, |c: Config| c.io.baudrate),
{
    let config = default_config(store)?;
    Ok(config.io.baudrate)
}

/// The ticks after which a write to the bus is given up.
pub fn io_timeout(store: &DefaultConfig) -> (timeout: Result<u32, ConfigError>)
    ensures
        timeout == from_defaults(store, |c: Config| c.io.timeout),
{
    let config = default_config(store)?;
    Ok(config.io.timeout)
}

/// The address that the characters `text` spell, if they spell one.
pub open spec fn address_spelled(text: Seq<char>) -> Option<Ipv4Addr> {
    address_of(encode_utf8(text))
}

/// The fixed address of the station: none where none is configured, an
/// error where the configured one is no address.
pub open spec fn static_ip_addr_of(config: Config) -> Result<Option<Ipv4Addr>, ConfigError> {
    match config.wifi.static_ip {
        None => Ok(None),
        Some(fixed) => match address_spelled(fixed.addr@) {
            Some(addr) => Ok(Some(addr)),
            None => Err(ConfigError::InvalidAddress),
        },
    }
}

/// The gateway of the station's fixed address, as `static_ip_addr_of`.
pub open spec fn static_ip_gateway_of(config: Config) -> Result<Option<Ipv4Addr>, ConfigError> {
    match config.wifi.static_ip {
        None => Ok(None),
        Some(fixed) => match address_spelled(fixed.gateway@) {
            Some(addr) => Ok(Some(addr)),
            None => Err(ConfigError::InvalidGateway),
        },
    }
}

/// The prefix length of the station's fixed address, if one is configured.
pub open spec fn static_ip_mask_of(config: Config) -> Option<u8> {
    match config.wifi.static_ip {
        None => None,
        Some(fixed) => Some(fixed.mask),
    }
}

/// The gateway of the access point, or an error where the configured one
/// is no address.
pub open spec fn access_point_gateway_of(config: Config) -> Result<Ipv4Addr, ConfigError> {
    match address_spelled(config.access_point.gateway@) {
        Some(addr) => Ok(addr),
        None => Err(ConfigError::InvalidGateway),
    }
}

/// What a getter that can fail returns: what `pick` makes of the defaults,
/// or the error of a place without defaults.
pub open spec fn try_from_defaults<T>(
    store: &DefaultConfig,
    pick: spec_fn(Config) -> Result<T, ConfigError>,
) -> Result<T, ConfigError> {
    match store@ {
        Some(config) => pick(config),
        None => Err(ConfigError::NotInitialized),
    }
}

/// The fixed address of the station, if one is configured.
pub fn wifi_static_ip_addr(store: &DefaultConfig) -> (addr: Result<Option<Ipv4Addr>, ConfigError>)
    ensures
        addr == try_from_defaults(store, |c: Config| static_ip_addr_of(c)),
{
    let config = default_config(store)?;
    match &config.wifi.static_ip {
        Some(fixed) => match parse_ipv4(fixed.addr.as_str()) {
            Some(addr) => Ok(Some(addr)),
            None => Err(ConfigError::InvalidAddress),
        },
        None => Ok(None),
    }
}

/// The gateway of the station's fixed address, if one is configured.
pub fn wifi_static_ip_gateway(store: &DefaultConfig) -> (gateway: Result<
    Option<Ipv4Addr>,
    ConfigError,
>)
    ensures
        gateway == try_from_defaults(store, |c: Config| static_ip_gateway_of(c)),
{
    let config = default_config(store)?;
    match &config.wifi.static_ip {
        Some(fixed) => match parse_ipv4(fixed.gateway.as_str()) {
            Some(addr) => Ok(Some(addr)),
            None => Err(ConfigError::InvalidGateway),
        },
        None => Ok(None),
    }
}

/// The prefix length of the station's fixed address, if one is configured.
pub fn wifi_static_ip_mask(store: &DefaultConfig) -> (mask: Result<Option<u8>, ConfigError>)
    ensures
        mask == from_defaults(store, |c: Config| static_ip_mask_of(c)),
{
    let config = default_config(store)?;
    match &config.wifi.static_ip {
        Some(fixed) => Ok(Some(fixed.mask)),
        None => Ok(None),
    }
}

/// The gateway of the access point.
pub fn access_point_gateway(store: &DefaultConfig) -> (gateway: Result<Ipv4Addr, ConfigError>)
    ensures
        gateway == try_from_defaults(store, |c: Config| access_point_gateway_of(c)),
{
    let config = default_config(store)?;
    match parse_ipv4(config.access_point.gateway.as_str()) {
        Some(addr) => Ok(addr),
        None => Err(ConfigError::InvalidGateway),
    }
}

/// The address that the station was given, as it was stored for display:
/// none where none is stored, an error where the stored text is no address.
pub fn wifi_ip_addr(stored: Option<String>) -> (addr: Result<Option<Ipv4Addr>, ConfigError>)
    ensures
        stored is None ==> addr == Ok::<Option<Ipv4Addr>, ConfigError>(None),
        stored matches Some(text) ==> addr == match address_spelled(text@) {
            Some(a) => Ok::<Option<Ipv4Addr>, ConfigError>(Some(a)),
            None => Err(ConfigError::InvalidAddress),
        },
{
    match stored {
        None => Ok(None),
        Some(text) => match parse_ipv4(text.as_str()) {
            Some(addr) => Ok(Some(addr)),
            None => Err(ConfigError::InvalidAddress),
        },
    }
}

/// Whether `ssid` names a network to join.
pub open spec fn names_network(ssid: Option<String>) -> bool {
    ssid matches Some(name) && name@.len() > 0
}

/// The SSID of the network to join: the stored one, or else the default.
pub fn wifi_ssid(store: &DefaultConfig, stored: Option<String>) -> (ssid: Result<
    Option<String>,
    ConfigError,
>)
    ensures
        ssid == from_defaults(store, |c: Config| stored_or_text(stored, c.wifi.ssid)),
{
    let config = default_config(store)?;
    match stored {
        Some(value) => Ok(Some(value)),
        None => Ok(clone_text(&config.wifi.ssid)),
    }
}

/// The password of the network to join: the stored one, or else the
/// default.
pub fn wifi_password(store: &DefaultConfig, stored: Option<String>) -> (password: Result<
    Option<String>,
    ConfigError,
>)
    ensures
        password == from_defaults(store, |c: Config| stored_or_text(stored, c.wifi.password)),
{
    let config = default_config(store)?;
    match stored {
        Some(value) => Ok(Some(value)),
        None => Ok(clone_text(&config.wifi.password)),
    }
}

/// Whether there is a network to join: an SSID is set, and it is not empty.
pub fn wifi_is_configured(store: &DefaultConfig, stored_ssid: Option<String>) -> (configured:
    Result<bool, ConfigError>)
    ensures
        configured == from_defaults(
            store,
            |c: Config| names_network(stored_or_text(stored_ssid, c.wifi.ssid)),
        ),
{
    let ssid = wifi_ssid(store, stored_ssid)?;
    match ssid {
        Some(name) => Ok(!name.as_str().is_empty()),
        None => Ok(false),
    }
}

/// The least number of seconds that the user may choose for a wait.
pub fn freq_lower_bound(store: &DefaultConfig, stored: Option<u32>) -> (seconds: Result<
    u32,
    ConfigError,
>)
    ensures
        seconds == from_defaults(store, |c: Config| stored_or(stored, c.frequency.lower_bound)),
{
    let config = default_config(store)?;
    match stored {
        Some(value) => Ok(value),
        None => Ok(config.frequency.lower_bound),
    }
}

/// The greatest number of seconds that the user may choose for a wait.
pub fn freq_upper_bound(store: &DefaultConfig, stored: Option<u32>) -> (seconds: Result<
    u32,
    ConfigError,
>)
    ensures
        seconds == from_defaults(store, |c: Config| stored_or(stored, c.frequency.upper_bound)),
{
    let config = default_config(store)?;
    match stored {
        Some(value) => Ok(value),
        None => Ok(config.frequency.upper_bound),
    }
}

/// The least number of seconds between two pulses in auto mode.
pub fn freq_min(store: &DefaultConfig, stored: Option<u32>) -> (seconds: Result<u32, ConfigError>)
    ensures
        seconds == from_defaults(store, |c: Config| stored_or(stored, c.frequency.default_min)),
{
    let config = default_config(store)?;
    match stored {
        Some(value) => Ok(value),
        None => Ok(config.frequency.default_min),
    }
}

/// The number of seconds that a wait in auto mode stays below.
pub fn freq_max(store: &DefaultConfig, stored: Option<u32>) -> (seconds: Result<u32, ConfigError>)
    ensures
        seconds == from_defaults(store, |c: Config| stored_or(stored, c.frequency.default_max)),
{
    let config = default_config(store)?;
    match stored {
        Some(value) => Ok(value),
        None => Ok(config.frequency.default_max),
    }
}

/// The most bytes that the driver takes for an SSID.
pub const MAX_SSID_LEN: usize = 32;

/// The most bytes that the driver takes for a password.
pub const MAX_PASSWORD_LEN: usize = 64;

/// The most bytes that the driver takes for a hostname.
pub const MAX_HOSTNAME_LEN: usize = 30;

/// The channel of an access point for which none is configured.
pub const DEFAULT_CHANNEL: u8 = 1;

/// How a network is secured.
#[derive(Debug, Clone, Copy, PartialEq, Eq, Structural)]
pub enum AuthMethod {
    /// Not at all: the network has no password.
    Open,
    /// By a password, with WPA2 Personal.
    Wpa2Personal,
}

/// The settings of the station.
#[derive(Debug)]
pub struct ClientConfiguration {
    pub ssid: String,
    pub auth_method: AuthMethod,
    pub password: String,
}

/// The settings of the access point.
#[derive(Debug)]
pub struct AccessPointConfiguration {
    pub ssid: String,
    pub ssid_hidden: bool,
    pub auth_method: AuthMethod,
    pub password: String,
    pub channel: u8,
}

/// The settings of the driver. The device always hosts its access point;
/// it is a station as well where there is a network to join.
#[derive(Debug)]
pub enum Configuration {
    AccessPoint(AccessPointConfiguration),
    Mixed(ClientConfiguration, AccessPointConfiguration),
}

/// How the station gets its address.
#[derive(Debug)]
pub enum ClientIpConfiguration {
    /// It has a fixed one.
    Fixed { ip: Ipv4Addr, gateway: Ipv4Addr, mask: u8 },
    /// It asks for one under its hostname.
    Dhcp { hostname: String },
}

/// The address settings of the access point.
#[derive(Debug, Clone, Copy, PartialEq, Eq, Structural)]
pub struct RouterConfiguration {
    pub gateway: Ipv4Addr,
}

/// The number of bytes that `text` takes.
pub open spec fn byte_len(text: Seq<char>) -> nat {
    encode_utf8(text).len()
}

/// The password to use: the given one, or the empty one.
pub open spec fn password_text(password: Option<String>) -> Seq<char> {
    match password {
        Some(text) => text@,
        None => Seq::empty(),
    }
}

/// How a network with this password is secured.
pub open spec fn auth_method_for(password: Option<String>) -> AuthMethod {
    if password_text(password).len() > 0 {
        AuthMethod::Wpa2Personal
    } else {
        AuthMethod::Open
    }
}

/// Why the driver does not take this SSID and password, if it does not. The
/// SSID is looked at first.
pub open spec fn credentials_error(ssid: Seq<char>, password: Option<String>) -> Option<
    ConfigError,
> {
    if byte_len(ssid) > MAX_SSID_LEN {
        Some(ConfigError::SsidTooLong)
    } else if byte_len(password_text(password)) > MAX_PASSWORD_LEN {
        Some(ConfigError::PasswordTooLong)
    } else {
        None
    }
}

/// Why there are no station settings for this SSID and password, if there
/// are none though a network is named.
pub open spec fn client_error(ssid: Option<String>, password: Option<String>) -> Option<
    ConfigError,
> {
    match ssid {
        Some(name) if name@.len() > 0 => credentials_error(name@, password),
        _ => None,
    }
}

/// Whether `client` holds the station settings for this SSID and password:
/// none where no network is named.
pub open spec fn is_client_for(
    ssid: Option<String>,
    password: Option<String>,
    client: Option<ClientConfiguration>,
) -> bool {
    match ssid {
        Some(name) if name@.len() > 0 => {
            &&& client matches Some(settings)
            &&& settings.ssid@ == name@
            &&& settings.password@ == password_text(password)
            &&& settings.auth_method == auth_method_for(password)
        },
        _ => client is None,
    }
}

/// Whether `settings` holds the access point settings of `config`.
pub open spec fn is_access_point_for(config: Config, settings: AccessPointConfiguration) -> bool {
    &&& settings.ssid@ == config.access_point.ssid@
    &&& settings.ssid_hidden == config.access_point.hidden
    &&& settings.password@ == password_text(config.access_point.password)
    &&& settings.auth_method == auth_method_for(config.access_point.password)
    &&& settings.channel == stored_or(config.access_point.channel, DEFAULT_CHANNEL)
}

/// Why there are no driver settings, if there are none. The access point is
/// looked at first.
pub open spec fn wifi_error(config: Config, ssid: Option<String>, password: Option<String>)
    -> Option<ConfigError> {
    match credentials_error(config.access_point.ssid@, config.access_point.password) {
        Some(error) => Some(error),
        None => client_error(ssid, password),
    }
}

/// Whether `settings` holds the driver settings of `config` for a station
/// with this SSID and password.
pub open spec fn is_wifi_for(
    config: Config,
    ssid: Option<String>,
    password: Option<String>,
    settings: Configuration,
) -> bool {
    match settings {
        Configuration::AccessPoint(access_point) => {
            &&& is_client_for(ssid, password, None)
            &&& is_access_point_for(config, access_point)
        },
        Configuration::Mixed(client, access_point) => {
            &&& is_client_for(ssid, password, Some(client))
            &&& is_access_point_for(config, access_point)
        },
    }
}

/// Why the station has no address settings, if it has none. The address is
/// looked at before the gateway, and the hostname only where no fixed
/// address is configured.
pub open spec fn netif_error(config: Config) -> Option<ConfigError> {
    match config.wifi.static_ip {
        Some(fixed) => if address_spelled(fixed.addr@) is None {
            Some(ConfigError::InvalidAddress)
        } else if address_spelled(fixed.gateway@) is None {
            Some(ConfigError::InvalidGateway)
        } else {
            None
        },
        None => if byte_len(config.wifi.hostname@) > MAX_HOSTNAME_LEN {
            Some(ConfigError::HostnameTooLong)
        } else {
            None
        },
    }
}

/// Whether `settings` holds the address settings of the station.
pub open spec fn is_netif_for(config: Config, settings: ClientIpConfiguration) -> bool {
    match config.wifi.static_ip {
        Some(fixed) => {
            &&& settings matches ClientIpConfiguration::Fixed { ip, gateway, mask }
            &&& Some(ip) == address_spelled(fixed.addr@)
            &&& Some(gateway) == address_spelled(fixed.gateway@)
            &&& mask == fixed.mask
        },
        None => {
            &&& settings matches ClientIpConfiguration::Dhcp { hostname }
            &&& hostname@ == config.wifi.hostname@
        },
    }
}

fn fits(text: &str, max: usize) -> (fits: bool)
    ensures
        fits == (byte_len(text@) <= max),
{
    text.as_bytes().len() <= max
}

fn credentials(ssid: &String, password: &Option<String>) -> (checked: Result<
    (String, AuthMethod, String),
    ConfigError,
>)
    ensures
        match credentials_error(ssid@, *password) {
            Some(error) => checked == Err::<(String, AuthMethod, String), ConfigError>(error),
            None => {
                &&& checked matches Ok(parts)
                &&& parts.0@ == ssid@
                &&& parts.1 == auth_method_for(*password)
                &&& parts.2@ == password_text(*password)
            },
        },
{
    if !fits(ssid.as_str(), MAX_SSID_LEN) {
        return Err(ConfigError::SsidTooLong);
    }
    let secret = match password {
        Some(text) => text.clone(),
        None => String::new(),
    };
    let auth_method = if secret.as_str().is_empty() {
        AuthMethod::Open
    } else {
        AuthMethod::Wpa2Personal
    };
    if !fits(secret.as_str(), MAX_PASSWORD_LEN) {
        return Err(ConfigError::PasswordTooLong);
    }
    Ok((ssid.clone(), auth_method, secret))
}

/// The settings of the station, if there is a network to join. The stored
/// SSID and password win over the defaults.
pub fn wifi_client_config(
    store: &DefaultConfig,
    stored_ssid: Option<String>,
    stored_password: Option<String>,
) -> (client: Result<Option<ClientConfiguration>, ConfigError>)
    ensures
        store@ is None ==> client == Err::<Option<ClientConfiguration>, ConfigError>(
            ConfigError::NotInitialized,
        ),
        store@ matches Some(c) ==> ({
            let ssid = stored_or_text(stored_ssid, c.wifi.ssid);
            let password = stored_or_text(stored_password, c.wifi.password);
            match client_error(ssid, password) {
                Some(error) => client == Err::<Option<ClientConfiguration>, ConfigError>(error),
                None => client matches Ok(settings) && is_client_for(ssid, password, settings),
            }
        }),
{
    let ssid = wifi_ssid(store, stored_ssid)?;
    let password = wifi_password(store, stored_password)?;
    match ssid {
        Some(name) => {
            if name.as_str().is_empty() {
                Ok(None)
            } else {
                let (ssid, auth_method, password) = credentials(&name, &password)?;
                Ok(Some(ClientConfiguration { ssid, auth_method, password }))
            }
        },
        None => Ok(None),
    }
}

/// The settings of the access point. It is open where it has no password,
/// and on `DEFAULT_CHANNEL` where it has no channel.
pub fn access_point_config(store: &DefaultConfig) -> (access_point: Result<
    AccessPointConfiguration,
    ConfigError,
>)
    ensures
        store@ is None ==> access_point == Err::<AccessPointConfiguration, ConfigError>(
            ConfigError::NotInitialized,
        ),
        store@ matches Some(c) ==> match credentials_error(
            c.access_point.ssid@,
            c.access_point.password,
        ) {
            Some(error) => access_point == Err::<AccessPointConfiguration, ConfigError>(error),
            None => access_point matches Ok(settings) && is_access_point_for(c, settings),
        },
{
    let config = default_config(store)?;
    let (ssid, auth_method, password) = credentials(
        &config.access_point.ssid,
        &config.access_point.password,
    )?;
    let channel = match config.access_point.channel {
        Some(channel) => channel,
        None => DEFAULT_CHANNEL,
    };
    Ok(
        AccessPointConfiguration {
            ssid,
            ssid_hidden: config.access_point.hidden,
            auth_method,
            password,
            channel,
        },
    )
}

/// The settings of the driver: access point and station where there is a
/// network to join, access point alone otherwise.
pub fn wifi_config(
    store: &DefaultConfig,
    stored_ssid: Option<String>,
    stored_password: Option<String>,
) -> (settings: Result<Configuration, ConfigError>)
    ensures
        store@ is None ==> settings == Err::<Configuration, ConfigError>(
            ConfigError::NotInitialized,
        ),
        store@ matches Some(c) ==> ({
            let ssid = stored_or_text(stored_ssid, c.wifi.ssid);
            let password = stored_or_text(stored_password, c.wifi.password);
            match wifi_error(c, ssid, password) {
                Some(error) => settings == Err::<Configuration, ConfigError>(error),
                None => settings matches Ok(both) && is_wifi_for(c, ssid, password, both),
            }
        }),
{
    let access_point = access_point_config(store)?;
    match wifi_client_config(store, stored_ssid, stored_password)? {
        Some(client) => Ok(Configuration::Mixed(client, access_point)),
        None => Ok(Configuration::AccessPoint(access_point)),
    }
}

/// The address settings of the station: the fixed address where one is
/// configured, and otherwise a request under the hostname.
pub fn wifi_netif_config(store: &DefaultConfig) -> (netif: Result<
    ClientIpConfiguration,
    ConfigError,
>)
    ensures
        store@ is None ==> netif == Err::<ClientIpConfiguration, ConfigError>(
            ConfigError::NotInitialized,
        ),
        store@ matches Some(c) ==> match netif_error(c) {
            Some(error) => netif == Err::<ClientIpConfiguration, ConfigError>(error),
            None => netif matches Ok(settings) && is_netif_for(c, settings),
        },
{
    let hostname = wifi_hostname(store)?;
    let addr = wifi_static_ip_addr(store)?;
    let mask = wifi_static_ip_mask(store)?;
    let gateway = wifi_static_ip_gateway(store)?;
    match (addr, mask, gateway) {
        (Some(ip), Some(mask), Some(gateway)) => Ok(
            ClientIpConfiguration::Fixed { ip, gateway, mask },
        ),
        _ => {
            if fits(hostname.as_str(), MAX_HOSTNAME_LEN) {
                Ok(ClientIpConfiguration::Dhcp { hostname })
            } else {
                Err(ConfigError::HostnameTooLong)
            }
        },
    }
}

/// The address settings of the access point: its gateway is fixed, so that
/// the device is found at a known address.
pub fn access_point_netif_config(store: &DefaultConfig) -> (netif: Result<
    RouterConfiguration,
    ConfigError,
>)
    ensures
        netif == try_from_defaults(
            store,
            |c: Config|
                match access_point_gateway_of(c) {
                    Ok(gateway) => Ok(RouterConfiguration { gateway }),
                    Err(error) => Err(error),
                },
        ),
{
    let gateway = access_point_gateway(store)?;
    Ok(RouterConfiguration { gateway })
}

/// The number that follows the greatest pin number.
pub const PIN_NUMBERS: u8 = 22;

/// Whether the device has a pin of this number.
pub open spec fn is_gpio_pin(pin: u8) -> bool {
    pin <= 10 || 18 <= pin <= 21
}

/// The pins of the device, each of which is handed out once.
#[derive(Debug)]
pub struct GpioPins {
    taken: Vec<bool>,
}

impl View for GpioPins {
    type V = Set<u8>;

    /// The pins that were handed out.
    closed spec fn view(&self) -> Set<u8> {
        Set::new(|pin: u8| pin < self.taken@.len() && self.taken@[pin as int])
    }
}

impl GpioPins {
    /// Whether the record of the pins is whole.
    pub closed spec fn wf(&self) -> bool {
        self.taken@.len() == PIN_NUMBERS
    }

    /// The pins, none of them handed out.
    pub fn new() -> (pins: Self)
        ensures
            pins.wf(),
            pins@ == Set::<u8>::empty(),
    {
        let mut taken: Vec<bool> = Vec::new();
        let mut pin: u8 = 0;
        while pin < PIN_NUMBERS
            invariant
                pin <= PIN_NUMBERS,
                taken@.len() == pin,
                forall|i: int| 0 <= i < taken@.len() ==> !taken@[i],
            decreases PIN_NUMBERS - pin,
        {
            taken.push(false);
            pin = pin + 1;
        }
        let pins = Self { taken };
        assert(pins@ =~= Set::<u8>::empty());
        pins
    }

    /// Hands out the pin of this number: an error where the device has no
    /// such pin, and where the pin was handed out before.
    pub fn io_pin(&mut self, pin: u8) -> (handed: Result<u8, ConfigError>)
        requires
            old(self).wf(),
        ensures
            final(self).wf(),
            !is_gpio_pin(pin) ==> handed == Err::<u8, ConfigError>(ConfigError::InvalidPin { pin })
                && final(self)@ == old(self)@,
            is_gpio_pin(pin) && old(self)@.contains(pin) ==> handed == Err::<u8, ConfigError>(
                ConfigError::PinInUse { pin },
            ) && final(self)@ == old(self)@,
            is_gpio_pin(pin) && !old(self)@.contains(pin) ==> handed == Ok::<u8, ConfigError>(pin)
                && final(self)@ == old(self)@.insert(pin),
    {
        if !(pin <= 10 || (18 <= pin && pin <= 21)) {
            return Err(ConfigError::InvalidPin { pin });
        }
        let index: usize = pin as usize;
        if self.taken[index] {
            return Err(ConfigError::PinInUse { pin });
        }
        self.taken.set(index, true);
        assert(self@ =~= old(self)@.insert(pin));
        Ok(pin)
    }
}

/// The pins of the device, and the two that the bus uses.
#[derive(Debug)]
pub struct IoPins {
    pins: GpioPins,
    sda_pin: u8,
    scl_pin: u8,
}

impl IoPins {
    /// Whether the record of the pins is whole.
    pub closed spec fn wf(&self) -> bool {
        self.pins.wf()
    }

    /// The pins that were handed out.
    pub closed spec fn taken(&self) -> Set<u8> {
        self.pins@
    }

    /// The number of the data pin.
    pub closed spec fn sda(&self) -> u8 {
        self.sda_pin
    }

    /// The number of the clock pin.
    pub closed spec fn scl(&self) -> u8 {
        self.scl_pin
    }

    /// What handing out `pin` returns when `taken` were handed out before.
    pub open spec fn handed(taken: Set<u8>, pin: u8) -> Result<u8, ConfigError> {
        if !is_gpio_pin(pin) {
            Err(ConfigError::InvalidPin { pin })
        } else if taken.contains(pin) {
            Err(ConfigError::PinInUse { pin })
        } else {
            Ok(pin)
        }
    }

    /// Hands out the data pin of the bus.
    pub fn sda_pin(&mut self) -> (handed: Result<u8, ConfigError>)
        requires
            old(self).wf(),
        ensures
            final(self).wf(),
            final(self).sda() == old(self).sda(),
            final(self).scl() == old(self).scl(),
            handed == Self::handed(old(self).taken(), old(self).sda()),
            handed is Ok ==> final(self).taken() == old(self).taken().insert(old(self).sda()),
            handed is Err ==> final(self).taken() == old(self).taken(),
    {
        self.pins.io_pin(self.sda_pin)
    }

    /// Hands out the clock pin of the bus.
    pub fn scl_pin(&mut self) -> (handed: Result<u8, ConfigError>)
        requires
            old(self).wf(),
        ensures
            final(self).wf(),
            final(self).sda() == old(self).sda(),
            final(self).scl() == old(self).scl(),
            handed == Self::handed(old(self).taken(), old(self).scl()),
            handed is Ok ==> final(self).taken() == old(self).taken().insert(old(self).scl()),
            handed is Err ==> final(self).taken() == old(self).taken(),
    {
        self.pins.io_pin(self.scl_pin)
    }
}

/// The pins of the device, none handed out, with the two that the bus uses
/// as the defaults name them.
pub fn io_pins(store: &DefaultConfig) -> (pins: Result<IoPins, ConfigError>)
    ensures
        store@ is None ==> (pins matches Err(error) && error == ConfigError::NotInitialized),
        store@ matches Some(c) ==> {
            &&& pins matches Ok(io)
            &&& io.wf()
            &&& io.taken() == Set::<u8>::empty()
            &&& io.sda() == c.io.sda_pin
            &&& io.scl() == c.io.scl_pin
        },
{
    let config = default_config(store)?;
    Ok(IoPins { pins: GpioPins::new(), sda_pin: config.io.sda_pin, scl_pin: config.io.scl_pin })
}

/// `text` without the white space at its two ends, as `str::trim` of std
/// takes it off.
pub uninterp spec fn trimmed(text: Seq<char>) -> Seq<char>;

/// `str::trim` of std: the result is the text without the white space at
/// its ends, which is given the name `trimmed`.
#[verifier::external_body]
fn trim(text: &str) -> (inner: &str)
    ensures
        inner@ == trimmed(text@),
{
    text.trim()
}

/// What is stored of a text field, given what is left of it without the
/// white space at its ends: the text as it was entered, or nothing where
/// nothing is left.
pub fn text_unless_blank(field: &str, inner: &str) -> (stored: Option<String>)
    ensures
        inner@.len() == 0 ==> stored is None,
        inner@.len() != 0 ==> (stored matches Some(text) && text@ == field@),
{
    if inner.is_empty() {
        None
    } else {
        Some(field.to_owned())
    }
}

/// What is stored of a text field that the user filled in: the text as it
/// was entered, or nothing, which removes the stored value, where the field
/// holds white space alone.
pub fn entered_text(field: &str) -> (stored: Option<String>)
    ensures
        trimmed(field@).len() == 0 ==> stored is None,
        trimmed(field@).len() != 0 ==> (stored matches Some(text) && text@ == field@),
{
    text_unless_blank(field, trim(field))
}

} // verus!
