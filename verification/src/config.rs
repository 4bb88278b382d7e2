//! Configuration model of the application around the decoders: where the
//! mqtt broker account's secret lives, the broker address, and output
//! verbosity. File reading and argument parsing stay outside; this module
//! holds the rules that turn their plain values into a configuration.

use vstd::prelude::*;

verus! {

/// Why a configuration update failed.
#[derive(Clone, Debug, PartialEq, Eq)]
pub enum ConfigError {
    /// Credentials were requested without a broker to use them with.
    MqttMissingBroker,
    /// The platform keystore could not be used; the message is the
    /// keystore's own.
    KeyringError(String),
}

/// Where the mqtt account secret lives: on the platform keystore under the
/// account's user name, or directly in the configuration file beside it.
#[derive(Clone)]
pub enum Credentials {
    Keyring(String),
    ConfigFile(String, String),
}

/// The user name a credential stores, before the empty-means-absent rule.
pub open spec fn cred_raw_username(c: Credentials) -> Seq<char> {
    match c {
        Credentials::Keyring(u) => u@,
        Credentials::ConfigFile(u, _) => u@,
    }
}

/// The secret a credential itself stores: the config-file password, or
/// nothing for a keystore credential, whose secret lives elsewhere.
pub open spec fn cred_raw_password(c: Credentials) -> Option<Seq<char>> {
    match c {
        Credentials::Keyring(_) => None,
        Credentials::ConfigFile(_, p) => Some(p@),
    }
}

/// The user name under the empty-means-absent rule.
pub open spec fn spec_username(c: Credentials) -> Option<Seq<char>> {
    if cred_raw_username(c).len() == 0 {
        None
    } else {
        Some(cred_raw_username(c))
    }
}

/// Relies on keyring::Entry::new and Entry::get_password: looks the secret
/// for `username` up on the platform keystore under this library's service
/// name. A missing entry is a plain `None`; any other failure carries the
/// keystore's message. The outcome depends on the keystore's state, so
/// nothing is promised of it.
#[verifier::external_body]
fn keyring_get_password(username: &str) -> Result<Option<String>, String> {
    let entry = match keyring::Entry::new("fine_offset", username) {
        Ok(e) => e,
        Err(e) => return Err(e.to_string()),
    };
    match entry.get_password() {
        Ok(p) => Ok(Some(p)),
        Err(keyring::Error::NoEntry) => Ok(None),
        Err(e) => Err(e.to_string()),
    }
}

/// Relies on keyring::Entry::new and Entry::set_password: stores the secret
/// for `username` on the platform keystore under this library's service
/// name. The outcome depends on the keystore's state, so nothing is promised
/// of it.
#[verifier::external_body]
fn keyring_set_password(username: &str, password: &str) -> Result<(), String> {
    let entry = match keyring::Entry::new("fine_offset", username) {
        Ok(e) => e,
        Err(e) => return Err(e.to_string()),
    };
    match entry.set_password(password) {
        Ok(()) => Ok(()),
        Err(e) => Err(e.to_string()),
    }
}

impl Credentials {
    /// The stored user name, or nothing when it is empty.
    pub fn username(&self) -> (r: Option<String>)
        ensures
            match r {
                Some(u) => spec_username(*self) == Some(u@),
                None => spec_username(*self) is None,
            },
    {
        match self {
            Credentials::Keyring(u) => {
                if u.as_str().is_empty() {
                    None
                } else {
                    Some(u.clone())
                }
            },
            Credentials::ConfigFile(u, _) => {
                if u.as_str().is_empty() {
                    None
                } else {
                    Some(u.clone())
                }
            },
        }
    }

    /// The account secret. For a config-file credential it is the stored
    /// password, with empty meaning absent; for a keystore credential it is
    /// whatever the platform keystore holds, and the outcome is the
    /// keystore's.
    pub fn password(&self) -> (r: Result<Option<String>, ConfigError>)
        ensures
            match *self {
                Credentials::ConfigFile(_, p) => match r {
                    Ok(Some(q)) => p@.len() > 0 && q@ == p@,
                    Ok(None) => p@.len() == 0,
                    Err(_) => false,
                },
                Credentials::Keyring(_) => match r {
                    Err(e) => e is KeyringError,
                    Ok(_) => true,
                },
            },
    {
        match self {
            Credentials::Keyring(u) => match keyring_get_password(u.as_str()) {
                Ok(p) => Ok(p),
                Err(s) => Err(ConfigError::KeyringError(s)),
            },
            Credentials::ConfigFile(_, p) => {
                if p.as_str().is_empty() {
                    Ok(None)
                } else {
                    Ok(Some(p.clone()))
                }
            },
        }
    }

    /// Both the user name and the secret, when both are present and
    /// non-empty.
    pub fn get(&self) -> (r: Option<(String, String)>)
        ensures
            match r {
                Some(up) => spec_username(*self) == Some(up.0@) && up.1@.len() > 0,
                None => true,
            },
            match *self {
                Credentials::ConfigFile(u, p) => match r {
                    Some(up) => up.0@ == u@ && up.1@ == p@,
                    None => u@.len() == 0 || p@.len() == 0,
                },
                Credentials::Keyring(u) => match r {
                    Some(_) => u@.len() > 0,
                    None => true,
                },
            },
    {
        let u = match self.username() {
            Some(u) => u,
            None => {
                return None;
            },
        };
        let p = match self.password() {
            Ok(Some(p)) => p,
            _ => {
                return None;
            },
        };
        if u.as_str().is_empty() || p.as_str().is_empty() {
            None
        } else {
            Some((u, p))
        }
    }

    /// A copy of this credential under another user name; the variant and a
    /// config-file password are kept.
    pub fn update_username(&self, username: &str) -> (r: Credentials)
        ensures
            cred_raw_username(r) == username@,
            r is Keyring <==> self is Keyring,
            cred_raw_password(r) == cred_raw_password(*self),
    {
        match self {
            Credentials::Keyring(_) => Credentials::Keyring(username.to_owned()),
            Credentials::ConfigFile(_, p) => Credentials::ConfigFile(
                username.to_owned(),
                p.clone(),
            ),
        }
    }

    /// A copy of this credential with another secret. For a config-file
    /// credential the password field changes; for a keystore credential the
    /// secret is stored on the keystore, whose outcome decides the result.
    pub fn update_password(&self, password: &str) -> (r: Result<Credentials, ConfigError>)
        ensures
            match r {
                Ok(c) => {
                    &&& c is Keyring <==> self is Keyring
                    &&& cred_raw_username(c) == cred_raw_username(*self)
                    &&& match c {
                        Credentials::ConfigFile(_, p) => p@ == password@,
                        Credentials::Keyring(_) => true,
                    }
                },
                Err(e) => self is Keyring && e is KeyringError,
            },
    {
        match self {
            Credentials::Keyring(u) => match keyring_set_password(u.as_str(), password) {
                Ok(()) => Ok(Credentials::Keyring(u.clone())),
                Err(s) => Err(ConfigError::KeyringError(s)),
            },
            Credentials::ConfigFile(u, _) => Ok(Credentials::ConfigFile(
                u.clone(),
                password.to_owned(),
            )),
        }
    }

    /// This credential as a keystore credential. A config-file password, if
    /// both it and the user name are non-empty, is stored on the keystore
    /// first; the keystore's outcome decides the result.
    pub fn as_keyring(&self) -> (r: Result<Credentials, ConfigError>)
        ensures
            match r {
                Ok(c) => c is Keyring && cred_raw_username(c) == cred_raw_username(*self),
                Err(e) => {
                    &&& self is ConfigFile
                    &&& e is KeyringError
                    &&& cred_raw_username(*self).len() > 0
                    &&& match cred_raw_password(*self) {
                        Some(p) => p.len() > 0,
                        None => false,
                    }
                },
            },
    {
        match self {
            Credentials::Keyring(u) => Ok(Credentials::Keyring(u.clone())),
            Credentials::ConfigFile(u, p) => {
                if !u.as_str().is_empty() && !p.as_str().is_empty() {
                    match keyring_set_password(u.as_str(), p.as_str()) {
                        Ok(()) => (),
                        Err(s) => {
                            return Err(ConfigError::KeyringError(s));
                        },
                    }
                }
                Ok(Credentials::Keyring(u.clone()))
            },
        }
    }

    /// This credential as a config-file credential. For a keystore
    /// credential the stored secret is fetched from the keystore where it
    /// can be; a missing or unreadable secret becomes an empty password.
    pub fn as_configfile(&self) -> (r: Credentials)
        ensures
            r is ConfigFile,
            cred_raw_username(r) == cred_raw_username(*self),
            match *self {
                Credentials::ConfigFile(_, p) => cred_raw_password(r) == Some(p@),
                Credentials::Keyring(_) => true,
            },
    {
        match self {
            Credentials::ConfigFile(u, p) => Credentials::ConfigFile(u.clone(), p.clone()),
            Credentials::Keyring(u) => {
                let p = match keyring_get_password(u.as_str()) {
                    Ok(Some(p)) => p,
                    _ => String::new(),
                };
                Credentials::ConfigFile(u.clone(), p)
            },
        }
    }
}

impl Default for Credentials {
    /// An empty config-file credential.
    fn default() -> (r: Credentials)
        ensures
            r is ConfigFile,
            cred_raw_username(r).len() == 0,
            cred_raw_password(r) == Some(Seq::<char>::empty()),
    {
        Credentials::ConfigFile(String::new(), String::new())
    }
}

/// How to reach the mqtt broker, and as what account.
#[derive(Clone)]
pub struct MqttConfig {
    pub broker: String,
    pub credentials: Option<Credentials>,
}

impl MqttConfig {
    /// A broker address without credentials.
    pub fn new(broker: String) -> (r: Self)
        ensures
            r.broker@ == broker@,
            r.credentials is None,
    {
        MqttConfig { broker, credentials: None }
    }
}

/// Output verbosity, from silent to most verbose.
#[derive(Clone, Copy, Debug, PartialEq, Eq)]
pub enum LogLevel {
    Off,
    Error,
    Warn,
    Info,
    Debug,
    Trace,
}

/// The verbosity an output level selects; an unset level means `Error`, and
/// levels past the named ones mean `Trace`.
pub open spec fn spec_log_level(output_level: Option<u8>) -> LogLevel {
    match output_level {
        None => LogLevel::Error,
        Some(n) => if n == 0 {
            LogLevel::Off
        } else if n == 1 {
            LogLevel::Error
        } else if n == 2 {
            LogLevel::Warn
        } else if n == 3 {
            LogLevel::Info
        } else if n == 4 {
            LogLevel::Debug
        } else {
            LogLevel::Trace
        },
    }
}

/// The application's configuration: verbosity, the path of the radio
/// capture binary, the broker, and sensors to ignore.
#[derive(Clone)]
pub struct Config {
    pub output_level: Option<u8>,
    pub rtl_433: Option<String>,
    pub mqtt: Option<MqttConfig>,
    pub sensor_ignores: Vec<String>,
}

impl Default for Config {
    /// An empty configuration.
    fn default() -> (r: Config)
        ensures
            r.output_level is None,
            r.rtl_433 is None,
            r.mqtt is None,
            r.sensor_ignores@.len() == 0,
    {
        Config { output_level: None, rtl_433: None, mqtt: None, sensor_ignores: Vec::new() }
    }
}

/// An optional string, abstracted to its characters.
pub open spec fn opt_string_view(o: Option<String>) -> Option<Seq<char>> {
    match o {
        Some(s) => Some(s@),
        None => None,
    }
}

/// The output level after the verbosity flags: quiet wins, each debug
/// occurrence raises the level by one (saturating), absent flags leave the
/// level alone.
pub open spec fn spec_new_level(old_level: Option<u8>, quiet: bool, debug: u8) -> Option<u8> {
    if quiet {
        Some(0u8)
    } else if debug > 0 {
        Some(
            if debug == 255 {
                255u8
            } else {
                (debug + 1) as u8
            },
        )
    } else {
        old_level
    }
}

/// `base` with those entries of `add` appended, in order, that are not
/// already present.
pub open spec fn spec_extend_unique(base: Seq<Seq<char>>, add: Seq<Seq<char>>) -> Seq<Seq<char>>
    decreases add.len(),
{
    if add.len() == 0 {
        base
    } else {
        let prev = spec_extend_unique(base, add.drop_last());
        if prev.contains(add.last()) {
            prev
        } else {
            prev.push(add.last())
        }
    }
}

/// Whether some entry of `v` spells the same characters as `s`.
fn vec_contains_string(v: &Vec<String>, s: &String) -> (r: bool)
    ensures
        r == v.deep_view().contains(s@),
{
    let mut i: usize = 0;
    while i < v.len()
        invariant
            0 <= i <= v@.len(),
            forall|k: int| 0 <= k < i ==> v@[k]@ != s@,
        decreases v@.len() - i,
    {
        if v[i].eq(s) {
            proof {
                assert(v.deep_view()[i as int] == s@);
            }
            return true;
        }
        i = i + 1;
    }
    proof {
        assert(forall|j: int| 0 <= j < v.deep_view().len() ==> v.deep_view()[j] == v@[j]@);
    }
    false
}

/// The command-line requests that update a configuration, as plain values.
pub struct CliArgs {
    /// Suppress all output.
    pub quiet: bool,
    /// How many times the debug flag was given; zero when absent.
    pub debug: u8,
    /// Path of the radio capture binary.
    pub rtl_433_bin: Option<String>,
    /// Network identifier of the mqtt broker.
    pub mqtt_broker: Option<String>,
    /// Account user for the broker.
    pub mqtt_user: Option<String>,
    /// Keep the broker secret on the platform keystore.
    pub keyring_password: bool,
    /// Keep the broker secret in the configuration file.
    pub config_password: bool,
    /// Sensor topics to ignore.
    pub ignores: Vec<String>,
}

impl Config {
    /// Fold command-line requests into this configuration. The absence of an
    /// argument never resets a configured value. Credentials without a
    /// broker are refused; moving a secret onto the platform keystore can
    /// fail with the keystore's error, in which case the credentials are
    /// left as they were.
    pub fn update_from_args(&mut self, args: &CliArgs) -> (r: Result<(), ConfigError>)
        ensures
            final(self).output_level == spec_new_level(
                old(self).output_level,
                args.quiet,
                args.debug,
            ),
            opt_string_view(final(self).rtl_433) == (match args.rtl_433_bin {
                Some(p) => Some(p@),
                None => opt_string_view(old(self).rtl_433),
            }),
            final(self).mqtt is Some <==> (old(self).mqtt is Some || args.mqtt_broker is Some),
            match final(self).mqtt {
                Some(m1) => m1.broker@ == (match (args.mqtt_broker, old(self).mqtt) {
                    (Some(b), _) => b@,
                    (None, Some(m0)) => m0.broker@,
                    (None, None) => m1.broker@,
                }),
                None => true,
            },
            r == Err::<(), ConfigError>(ConfigError::MqttMissingBroker) <==> (old(self).mqtt
                is None && args.mqtt_broker is None && (args.mqtt_user is Some
                || args.keyring_password || args.config_password)),
            match r {
                Err(e) => {
                    &&& (e == ConfigError::MqttMissingBroker || (e is KeyringError
                        && args.keyring_password))
                    &&& final(self).sensor_ignores == old(self).sensor_ignores
                    &&& (e is KeyringError ==> match (final(self).mqtt, old(self).mqtt) {
                        (Some(m1), Some(m0)) => m1.credentials == m0.credentials,
                        (Some(m1), None) => m1.credentials is None,
                        _ => false,
                    })
                },
                Ok(_) => final(self).sensor_ignores.deep_view() == spec_extend_unique(
                    old(self).sensor_ignores.deep_view(),
                    args.ignores.deep_view(),
                ),
            },
            match (r, final(self).mqtt) {
                (Ok(_), Some(m1)) => match m1.credentials {
                    Some(c1) => {
                        let old_cred = match old(self).mqtt {
                            Some(m0) => m0.credentials,
                            None => None,
                        };
                        let u0 = match old_cred {
                            Some(c0) => cred_raw_username(c0),
                            None => Seq::<char>::empty(),
                        };
                        &&& cred_raw_username(c1) == (match args.mqtt_user {
                            Some(u) => u@,
                            None => u0,
                        })
                        &&& (args.keyring_password ==> c1 is Keyring)
                        &&& (!args.keyring_password && args.config_password ==> {
                            &&& c1 is ConfigFile
                            &&& match old_cred {
                                Some(Credentials::ConfigFile(_, p0)) => cred_raw_password(c1)
                                    == Some(p0@),
                                _ => true,
                            }
                        })
                        &&& (!args.keyring_password && !args.config_password ==> {
                            &&& (c1 is Keyring <==> (match old_cred {
                                Some(c0) => c0 is Keyring,
                                None => false,
                            }))
                            &&& cred_raw_password(c1) == (match old_cred {
                                Some(c0) => cred_raw_password(c0),
                                None => Some(Seq::<char>::empty()),
                            })
                        })
                    },
                    None => false,
                },
                _ => true,
            },
    {
        if args.quiet || args.debug > 0 {
            self.output_level = Some(
                if args.quiet {
                    0
                } else if args.debug == 255 {
                    255
                } else {
                    args.debug + 1
                },
            );
        }
        if let Some(path) = &args.rtl_433_bin {
            self.rtl_433 = Some(path.clone());
        }
        let mut mqtt_slot: Option<MqttConfig> = None;
        core::mem::swap(&mut mqtt_slot, &mut self.mqtt);
        let had_mqtt = mqtt_slot.is_some();
        if !had_mqtt && args.mqtt_broker.is_none() {
            if args.mqtt_user.is_some() || args.keyring_password || args.config_password {
                return Err(ConfigError::MqttMissingBroker);
            }
        } else {
            let m = match mqtt_slot {
                Some(m) => m,
                None => MqttConfig { broker: String::new(), credentials: None },
            };
            let MqttConfig { broker: broker0, credentials: creds0 } = m;
            let broker: String = match &args.mqtt_broker {
                Some(b) => b.clone(),
                None => broker0,
            };
            let (had_creds, cred0): (bool, Credentials) = match creds0 {
                Some(c) => (true, c),
                None => (false, Credentials::default()),
            };
            let cred1 = if args.keyring_password {
                match cred0.as_keyring() {
                    Ok(c) => c,
                    Err(e) => {
                        self.mqtt = Some(
                            MqttConfig {
                                broker,
                                credentials: if had_creds {
                                    Some(cred0)
                                } else {
                                    None
                                },
                            },
                        );
                        return Err(e);
                    },
                }
            } else if args.config_password {
                cred0.as_configfile()
            } else {
                cred0
            };
            let cred2 = match &args.mqtt_user {
                Some(u) => cred1.update_username(u.as_str()),
                None => cred1,
            };
            self.mqtt = Some(MqttConfig { broker, credentials: Some(cred2) });
        }
        let mut acc: Vec<String> = Vec::new();
        core::mem::swap(&mut acc, &mut self.sensor_ignores);
        let ghost base = acc.deep_view();
        let mut j: usize = 0;
        while j < args.ignores.len()
            invariant
                0 <= j <= args.ignores@.len(),
                acc.deep_view() == spec_extend_unique(
                    base,
                    args.ignores.deep_view().take(j as int),
                ),
            decreases args.ignores@.len() - j,
        {
            let ghost before = acc.deep_view();
            let s = &args.ignores[j];
            if !vec_contains_string(&acc, s) {
                acc.push(s.clone());
                proof {
                    assert(acc.deep_view() =~= before.push(s@));
                }
            }
            proof {
                let added = args.ignores.deep_view();
                assert(added.take(j + 1 as int).drop_last() =~= added.take(j as int));
                assert(added.take(j + 1 as int).last() == added[j as int]);
                assert(added[j as int] == args.ignores@[j as int]@);
            }
            j = j + 1;
        }
        proof {
            assert(args.ignores.deep_view().take(args.ignores@.len() as int)
                =~= args.ignores.deep_view());
        }
        self.sensor_ignores = acc;
        Ok(())
    }

    /// The verbosity this configuration selects.
    pub fn get_log_level(&self) -> (r: LogLevel)
        ensures
            r == spec_log_level(self.output_level),
    {
        let level = match self.output_level {
            Some(n) => n,
            None => 1,
        };
        if level == 0 {
            LogLevel::Off
        } else if level == 1 {
            LogLevel::Error
        } else if level == 2 {
            LogLevel::Warn
        } else if level == 3 {
            LogLevel::Info
        } else if level == 4 {
            LogLevel::Debug
        } else {
            LogLevel::Trace
        }
    }
}

} // verus!
