//! The settings of the service. They are read once, when the service
//! starts, and never change after that.

use vstd::prelude::*;
use vstd::string::*;
use crate::allowlist::{listed_devices, DeviceAllowlist};
use crate::error::{ConfigError, Setting};
use crate::text::owned_text_view;

verus! {

/// The seconds between two sweeps of the public directory: six hours.
pub const SWEEP_INTERVAL_SECONDS: u64 = 21600;

/// What the service runs with.
pub struct Config {
    /// The port to listen on.
    pub port: String,
    /// The directory of the signed archives.
    pub public_path: String,
    /// The directory of the uploads that wait for the signer.
    pub work_path: String,
    /// The provisioning profile.
    pub profile_path: String,
    /// The signing key.
    pub key_path: String,
    /// The devices that may ask for a signature.
    pub allowlist: DeviceAllowlist,
}

/// The values of the settings as the environment holds them, each absent
/// or present.
pub struct SettingsView {
    pub port: Option<Seq<char>>,
    pub public_path: Option<Seq<char>>,
    pub work_path: Option<Seq<char>>,
    pub profile_path: Option<Seq<char>>,
    pub key_path: Option<Seq<char>>,
    pub valid_udids: Option<Seq<char>>,
}

/// The first setting without a value, in the order in which they are read.
pub open spec fn first_missing(settings: SettingsView) -> Option<Setting> {
    if settings.port is None {
        Some(Setting::Port)
    } else if settings.public_path is None {
        Some(Setting::PublicPath)
    } else if settings.work_path is None {
        Some(Setting::WorkPath)
    } else if settings.profile_path is None {
        Some(Setting::ProfilePath)
    } else if settings.key_path is None {
        Some(Setting::KeyPath)
    } else if settings.valid_udids is None {
        Some(Setting::ValidUdids)
    } else {
        None
    }
}

/// Why the service cannot start with these settings, if it cannot: a
/// setting has no value, or all have one and the allow-list names no
/// device.
pub open spec fn config_error(settings: SettingsView) -> Option<ConfigError> {
    match first_missing(settings) {
        Some(setting) => Some(ConfigError::Missing(setting)),
        None => if listed_devices(settings.valid_udids->0).is_empty() {
            Some(ConfigError::NoValidUdids)
        } else {
            None
        },
    }
}

impl Config {
    /// Builds the configuration from the values of the six settings.
    pub fn load(
        port: Option<String>,
        public_path: Option<String>,
        work_path: Option<String>,
        profile_path: Option<String>,
        key_path: Option<String>,
        valid_udids: Option<String>,
    ) -> (loaded: Result<Config, ConfigError>)
        ensures
            match loaded {
                Ok(config) => {
                    &&& config_error(
                        SettingsView {
                            port: owned_text_view(port),
                            public_path: owned_text_view(public_path),
                            work_path: owned_text_view(work_path),
                            profile_path: owned_text_view(profile_path),
                            key_path: owned_text_view(key_path),
                            valid_udids: owned_text_view(valid_udids),
                        },
                    ) is None
                    &&& Some(config.port) == port
                    &&& Some(config.public_path) == public_path
                    &&& Some(config.work_path) == work_path
                    &&& Some(config.profile_path) == profile_path
                    &&& Some(config.key_path) == key_path
                    &&& valid_udids matches Some(list) && config.allowlist@ == listed_devices(list@)
                    &&& config.allowlist.wf()
                },
                Err(e) => config_error(
                    SettingsView {
                        port: owned_text_view(port),
                        public_path: owned_text_view(public_path),
                        work_path: owned_text_view(work_path),
                        profile_path: owned_text_view(profile_path),
                        key_path: owned_text_view(key_path),
                        valid_udids: owned_text_view(valid_udids),
                    },
                ) == Some(e),
            },
    {
        let port = match port {
            Some(value) => value,
            None => {
                return Err(ConfigError::Missing(Setting::Port));
            },
        };
        let public_path = match public_path {
            Some(value) => value,
            None => {
                return Err(ConfigError::Missing(Setting::PublicPath));
            },
        };
        let work_path = match work_path {
            Some(value) => value,
            None => {
                return Err(ConfigError::Missing(Setting::WorkPath));
            },
        };
        let profile_path = match profile_path {
            Some(value) => value,
            None => {
                return Err(ConfigError::Missing(Setting::ProfilePath));
            },
        };
        let key_path = match key_path {
            Some(value) => value,
            None => {
                return Err(ConfigError::Missing(Setting::KeyPath));
            },
        };
        let list = match valid_udids {
            Some(value) => value,
            None => {
                return Err(ConfigError::Missing(Setting::ValidUdids));
            },
        };
        let allowlist = match DeviceAllowlist::parse(list.as_str()) {
            Ok(allowlist) => allowlist,
            Err(e) => {
                return Err(e);
            },
        };
        Ok(Config { port, public_path, work_path, profile_path, key_path, allowlist })
    }

    /// The address to listen on: every interface, at the configured port.
    pub fn bind_address(&self) -> (address: String)
        ensures
            address@ == ":::"@ + self.port@,
    {
        let mut address = ":::".to_owned();
        address.append(self.port.as_str());
        address
    }
}

} // verus!
