//! Bringing the station connection up, and what follows when it is lost.
//!
//! The device stays reachable as an access point while it joins a network
//! as a station. It first tries to connect a few times in a row, then backs
//! off to one attempt per fixed wait, and never gives up. Once connected, the
//! loss of the connection restarts the device.

use vstd::prelude::*;
use crate::config::access_point_gateway_of;
use crate::config::access_point_netif_config;
use crate::config::access_point_ssid;
use crate::config::is_netif_for;
use crate::config::is_wifi_for;
use crate::config::netif_error;
use crate::config::stored_or_text;
use crate::config::wifi_config;
use crate::config::wifi_error;
use crate::config::wifi_netif_config;
use crate::config::ClientIpConfiguration;
use crate::config::Config;
use crate::config::ConfigError;
use crate::config::Configuration;
use crate::config::DefaultConfig;
use crate::config::RouterConfiguration;

verus! {

/// The number of attempts that are made without a wait between them.
pub const MAX_ATTEMPTS: u32 = 3;

/// The seconds to wait before each attempt once the eager ones have failed.
pub const WAIT_DURATION_SECS: u64 = 10;

/// The driver's error code for an attempt that timed out.
pub const ESP_ERR_TIMEOUT: i32 = 0x107;

/// How the next connection attempt is made.
#[derive(Debug, Clone, Copy, PartialEq, Eq, Structural)]
pub enum ConnectStrategy {
    /// At once. `attempt` counts the attempts that have failed so far.
    Eager { attempt: u32 },
    /// After a fixed wait, for as long as it takes.
    Periodic,
}

impl ConnectStrategy {
    /// The strategy after one more failed attempt. The eager attempts are
    /// those numbered below `MAX_ATTEMPTS`; when the last of them fails the
    /// strategy is periodic, and stays so.
    pub open spec fn after_failure(self) -> Self {
        match self {
            Self::Eager { attempt } => if attempt + 1 < MAX_ATTEMPTS {
                Self::Eager { attempt: (attempt + 1) as u32 }
            } else {
                Self::Periodic
            },
            Self::Periodic => Self::Periodic,
        }
    }

    /// The strategy after `failures` more failed attempts.
    pub open spec fn after_failures(self, failures: nat) -> Self
        decreases failures,
    {
        if failures == 0 {
            self
        } else {
            self.after_failures((failures - 1) as nat).after_failure()
        }
    }

    /// The seconds to wait before the next attempt, if any.
    pub open spec fn wait(self) -> Option<u64> {
        match self {
            Self::Eager { .. } => None,
            Self::Periodic => Some(WAIT_DURATION_SECS),
        }
    }

    /// Records that an attempt has failed.
    pub fn attempt(&mut self)
        ensures
            *final(self) == old(self).after_failure(),
    {
        match *self {
            Self::Eager { attempt } => {
                if attempt < MAX_ATTEMPTS - 1 {
                    *self = Self::Eager { attempt: attempt + 1 };
                } else {
                    *self = Self::Periodic;
                }
            },
            Self::Periodic => {},
        }
    }

    /// The seconds to wait before the next attempt: none while eager.
    pub fn wait_before_attempt(&self) -> (seconds: Option<u64>)
        ensures
            seconds == self.wait(),
    {
        match self {
            Self::Eager { .. } => None,
            Self::Periodic => Some(WAIT_DURATION_SECS),
        }
    }
}

impl Default for ConnectStrategy {
    /// The strategy of a fresh connect: eager, with no failure yet.
    fn default() -> (strategy: Self)
        ensures
            strategy == (ConnectStrategy::Eager { attempt: 0 }),
    {
        ConnectStrategy::Eager { attempt: 0 }
    }
}

/// What the connect operation does after an attempt.
#[derive(Debug, Clone, Copy, PartialEq, Eq, Structural)]
pub enum ConnectStep {
    /// The attempt timed out: wait as the strategy says, then try again.
    Retry,
    /// The attempt succeeded: wait for the interface to come up, and return.
    Connected,
    /// The driver failed with this code: give the connect operation up.
    Abort { code: i32 },
}

/// The step that follows an attempt which ended with `error`, the driver's
/// error code, or without one.
pub open spec fn step_after_attempt(error: Option<i32>) -> ConnectStep {
    match error {
        None => ConnectStep::Connected,
        Some(code) => if code == ESP_ERR_TIMEOUT {
            ConnectStep::Retry
        } else {
            ConnectStep::Abort { code }
        },
    }
}

/// Decides what follows a connection attempt. Only a timeout is retried,
/// and only a timeout advances the strategy.
pub fn connect_step(strategy: &mut ConnectStrategy, error: Option<i32>) -> (step: ConnectStep)
    ensures
        step == step_after_attempt(error),
        step == ConnectStep::Retry ==> *final(strategy) == old(strategy).after_failure(),
        step != ConnectStep::Retry ==> *final(strategy) == *old(strategy),
{
    match error {
        None => ConnectStep::Connected,
        Some(code) => {
            if code == ESP_ERR_TIMEOUT {
                strategy.attempt();
                ConnectStep::Retry
            } else {
                ConnectStep::Abort { code }
            }
        },
    }
}

/// An event of the network driver, as far as the device reacts to it.
#[derive(Debug, Clone, Copy, PartialEq, Eq, Structural)]
pub enum WifiEvent {
    /// The station lost its connection.
    StaDisconnected,
    /// Any other event.
    Other,
}

/// What the device does about an event.
#[derive(Debug, Clone, Copy, PartialEq, Eq, Structural)]
pub enum EventAction {
    /// Nothing.
    Ignore,
    /// Restart the device.
    Restart,
}

/// Decides what follows an event that arrives once the station is
/// connected. A lost connection restarts the device, whatever the cause: an
/// actuator that nobody can reach any more must not go on. There is no way
/// to reconnect while serving.
pub fn reset_on_disconnect(event: WifiEvent) -> (action: EventAction)
    ensures
        action == EventAction::Restart <==> event == WifiEvent::StaDisconnected,
        action == EventAction::Ignore <==> event != WifiEvent::StaDisconnected,
{
    match event {
        WifiEvent::StaDisconnected => EventAction::Restart,
        WifiEvent::Other => EventAction::Ignore,
    }
}

/// While fewer than `MAX_ATTEMPTS` attempts have failed, a fresh strategy is
/// eager and counts them.
pub proof fn lemma_eager_below_max(failures: nat)
    requires
        failures < MAX_ATTEMPTS,
    ensures
        (ConnectStrategy::Eager { attempt: 0 }).after_failures(failures) == (ConnectStrategy::Eager {
            attempt: failures as u32,
        }),
    decreases failures,
{
    if failures > 0 {
        lemma_eager_below_max((failures - 1) as nat);
    }
}

/// After `MAX_ATTEMPTS` failed attempts in a row a fresh strategy is
/// periodic, and it is still periodic after any number of further failures.
pub proof fn lemma_periodic_from_max(failures: nat)
    requires
        failures >= MAX_ATTEMPTS,
    ensures
        (ConnectStrategy::Eager { attempt: 0 }).after_failures(failures)
            == ConnectStrategy::Periodic,
    decreases failures,
{
    if failures == MAX_ATTEMPTS {
        lemma_eager_below_max((failures - 1) as nat);
    } else {
        lemma_periodic_from_max((failures - 1) as nat);
    }
}

/// A periodic strategy never goes back to eager.
pub proof fn lemma_periodic_stays(failures: nat)
    ensures
        ConnectStrategy::Periodic.after_failures(failures) == ConnectStrategy::Periodic,
    decreases failures,
{
    if failures > 0 {
        lemma_periodic_stays((failures - 1) as nat);
    }
}

/// What the network driver is started with.
#[derive(Debug)]
pub struct WifiSetup {
    /// The address settings of the station.
    pub station_netif: ClientIpConfiguration,
    /// The address settings of the access point.
    pub access_point_netif: RouterConfiguration,
    /// The settings of the driver.
    pub wifi: Configuration,
}

/// Why the driver cannot be started, if it cannot. The access point must
/// have an SSID, since the device must always be reachable; then the
/// address settings are looked at, the station's first, and then the
/// settings of the driver.
pub open spec fn init_error(config: Config, ssid: Option<String>, password: Option<String>)
    -> Option<ConfigError> {
    if config.access_point.ssid@.len() == 0 {
        Some(ConfigError::EmptyAccessPointSsid)
    } else if netif_error(config) is Some {
        netif_error(config)
    } else if access_point_gateway_of(config) is Err {
        Some(ConfigError::InvalidGateway)
    } else {
        wifi_error(config, ssid, password)
    }
}

/// Whether `setup` is what the driver is started with under `config`, for
/// a station with this SSID and password.
pub open spec fn is_setup_for(
    config: Config,
    ssid: Option<String>,
    password: Option<String>,
    setup: WifiSetup,
) -> bool {
    &&& is_netif_for(config, setup.station_netif)
    &&& Ok::<crate::ipv4::Ipv4Addr, ConfigError>(setup.access_point_netif.gateway)
        == access_point_gateway_of(config)
    &&& is_wifi_for(config, ssid, password, setup.wifi)
}

/// Works out what the network driver is started with, from the defaults
/// and the stored SSID and password of the network to join. The access
/// point is always part of it; the station is where a network is named.
pub fn init(store: &DefaultConfig, stored_ssid: Option<String>, stored_password: Option<String>)
    -> (setup: Result<WifiSetup, ConfigError>)
    ensures
        store@ is None ==> (setup matches Err(error) && error == ConfigError::NotInitialized),
        store@ matches Some(c) ==> ({
            let ssid = stored_or_text(stored_ssid, c.wifi.ssid);
            let password = stored_or_text(stored_password, c.wifi.password);
            match init_error(c, ssid, password) {
                Some(error) => setup matches Err(e) && e == error,
                None => setup matches Ok(found) && is_setup_for(c, ssid, password, found),
            }
        }),
{
    if access_point_ssid(store)?.as_str().is_empty() {
        return Err(ConfigError::EmptyAccessPointSsid);
    }
    let station_netif = wifi_netif_config(store)?;
    let access_point_netif = access_point_netif_config(store)?;
    let wifi = wifi_config(store, stored_ssid, stored_password)?;
    Ok(WifiSetup { station_netif, access_point_netif, wifi })
}

} // verus!
