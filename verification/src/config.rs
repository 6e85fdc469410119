//! Configuration: the daemon's address, where models are stored, and the
//! inference defaults.
//!
//! Reading and writing the configuration file is the caller's concern; the
//! library owns the shape, the defaults, and the keyed get/set used by the
//! configuration command. Temperature is in thousandths and the nucleus mass
//! in millionths, as everywhere in the library; their values are written and
//! parsed as those integers.

use vstd::prelude::*;
use vstd::string::StringExecFns;

use crate::strutil::dec_chars;
use crate::strutil::dec_value;
use crate::strutil::parse_u64;
use crate::strutil::str_eq;
use crate::strutil::u64_to_string;

verus! {

/// Daemon settings.
#[derive(Clone, Debug)]
pub struct DaemonConfig {
    /// The port the daemon listens on.
    pub port: u16,
    /// The host it binds to.
    pub host: String,
}

/// Model storage settings.
#[derive(Clone, Debug)]
pub struct ModelsConfig {
    /// The directory models are stored under, as a path string.
    pub storage_path: String,
    /// A model-hub token for private models.
    pub hf_token: Option<String>,
}

/// Inference defaults.
#[derive(Clone, Debug)]
pub struct InferenceConfig {
    pub max_tokens: u32,
    /// In thousandths.
    pub temperature: u32,
    /// In millionths.
    pub top_p: u32,
    pub use_gpu: bool,
}

/// The whole configuration.
#[derive(Clone, Debug)]
pub struct Config {
    pub daemon: DaemonConfig,
    pub models: ModelsConfig,
    pub inference: InferenceConfig,
}

/// The mathematical image of a configuration.
pub ghost struct ConfigModel {
    pub host: Seq<char>,
    pub port: u16,
    pub storage_path: Seq<char>,
    pub hf_token: Option<Seq<char>>,
    pub max_tokens: u32,
    pub temperature: u32,
    pub top_p: u32,
    pub use_gpu: bool,
}

impl View for Config {
    type V = ConfigModel;

    open spec fn view(&self) -> ConfigModel {
        ConfigModel {
            host: self.daemon.host@,
            port: self.daemon.port,
            storage_path: self.models.storage_path@,
            hf_token: match self.models.hf_token {
                Some(ref t) => Some(t@),
                None => None,
            },
            max_tokens: self.inference.max_tokens,
            temperature: self.inference.temperature,
            top_p: self.inference.top_p,
            use_gpu: self.inference.use_gpu,
        }
    }
}

pub fn default_port() -> (p: u16)
    ensures
        p == 10692,
{
    10692
}

pub fn default_host() -> (h: String)
    ensures
        h@ == "127.0.0.1"@,
{
    String::from_str("127.0.0.1")
}

pub fn default_max_tokens() -> (n: u32)
    ensures
        n == 2048,
{
    2048
}

/// In thousandths: 0.7.
pub fn default_temperature() -> (t: u32)
    ensures
        t == 700,
{
    700
}

/// In millionths: 0.9.
pub fn default_top_p() -> (p: u32)
    ensures
        p == 900_000,
{
    900_000
}

pub fn default_use_gpu() -> (b: bool)
    ensures
        b,
{
    true
}

/// The fallback storage directory; the caller substitutes the real
/// per-user configuration directory when it can resolve one.
pub fn default_storage_path() -> (p: String)
    ensures
        p@ == "~/.config/ohmygpu/models"@,
{
    String::from_str("~/.config/ohmygpu/models")
}

impl Default for DaemonConfig {
    fn default() -> (c: DaemonConfig)
        ensures
            c.port == 10692,
            c.host@ == "127.0.0.1"@,
    {
        DaemonConfig { port: default_port(), host: default_host() }
    }
}

impl Default for ModelsConfig {
    fn default() -> (c: ModelsConfig)
        ensures
            c.storage_path@ == "~/.config/ohmygpu/models"@,
            c.hf_token is None,
    {
        ModelsConfig { storage_path: default_storage_path(), hf_token: None }
    }
}

impl Default for InferenceConfig {
    fn default() -> (c: InferenceConfig)
        ensures
            c.max_tokens == 2048,
            c.temperature == 700,
            c.top_p == 900_000,
            c.use_gpu,
    {
        InferenceConfig {
            max_tokens: default_max_tokens(),
            temperature: default_temperature(),
            top_p: default_top_p(),
            use_gpu: default_use_gpu(),
        }
    }
}

impl Default for Config {
    fn default() -> (c: Config)
        ensures
            c@.port == 10692,
            c@.host == "127.0.0.1"@,
            c@.storage_path == "~/.config/ohmygpu/models"@,
            c@.hf_token is None,
            c@.max_tokens == 2048,
            c@.temperature == 700,
            c@.top_p == 900_000,
            c@.use_gpu,
    {
        Config {
            daemon: DaemonConfig::default(),
            models: ModelsConfig::default(),
            inference: InferenceConfig::default(),
        }
    }
}

/// The value parses as a decimal number within `bound`.
pub open spec fn fits(value: Seq<char>, bound: int) -> bool {
    dec_value(value) matches Some(v) && v <= bound
}

/// What reading one key yields: the rendered value, or nothing for an
/// unknown key. The token is masked.
pub open spec fn config_value_spec(c: ConfigModel, key: Seq<char>) -> Option<Seq<char>> {
    if key == "daemon.host"@ {
        Some(c.host)
    } else if key == "daemon.port"@ {
        Some(dec_chars(c.port as int))
    } else if key == "models.storage_path"@ {
        Some(c.storage_path)
    } else if key == "models.hf_token"@ {
        Some(
            if c.hf_token is Some {
                "***"@
            } else {
                Seq::<char>::empty()
            },
        )
    } else if key == "inference.max_tokens"@ {
        Some(dec_chars(c.max_tokens as int))
    } else if key == "inference.temperature"@ {
        Some(dec_chars(c.temperature as int))
    } else if key == "inference.top_p"@ {
        Some(dec_chars(c.top_p as int))
    } else if key == "inference.use_gpu"@ {
        Some(
            if c.use_gpu {
                "true"@
            } else {
                "false"@
            },
        )
    } else {
        None
    }
}

/// Read one configuration value by key, rendered as text; the token is
/// masked. Fails exactly on an unknown key.
pub fn get_config_value(config: &Config, key: &str) -> (r: Result<String, String>)
    ensures
        (r matches Ok(v) ==> config_value_spec(config@, key@) == Some(v@)),
        (r is Err ==> config_value_spec(config@, key@) is None),
{
    if str_eq(key, "daemon.host") {
        Ok(config.daemon.host.clone())
    } else if str_eq(key, "daemon.port") {
        Ok(u64_to_string(config.daemon.port as u64))
    } else if str_eq(key, "models.storage_path") {
        Ok(config.models.storage_path.clone())
    } else if str_eq(key, "models.hf_token") {
        match &config.models.hf_token {
            Some(_) => Ok(String::from_str("***")),
            None => Ok(String::new()),
        }
    } else if str_eq(key, "inference.max_tokens") {
        Ok(u64_to_string(config.inference.max_tokens as u64))
    } else if str_eq(key, "inference.temperature") {
        Ok(u64_to_string(config.inference.temperature as u64))
    } else if str_eq(key, "inference.top_p") {
        Ok(u64_to_string(config.inference.top_p as u64))
    } else if str_eq(key, "inference.use_gpu") {
        if config.inference.use_gpu {
            Ok(String::from_str("true"))
        } else {
            Ok(String::from_str("false"))
        }
    } else {
        let mut m = String::from_str("unknown config key: ");
        m.append(key);
        Err(m)
    }
}

/// What writing one key yields: the changed configuration, or nothing for an
/// unknown key, an unparsable number, or an out-of-range value.
pub open spec fn config_set_spec(c: ConfigModel, key: Seq<char>, value: Seq<char>) -> Option<
    ConfigModel,
> {
    if key == "daemon.host"@ {
        Some(ConfigModel { host: value, ..c })
    } else if key == "daemon.port"@ {
        if fits(value, u16::MAX as int) {
            Some(ConfigModel { port: dec_value(value)->0 as u16, ..c })
        } else {
            None
        }
    } else if key == "models.storage_path"@ {
        Some(ConfigModel { storage_path: value, ..c })
    } else if key == "models.hf_token"@ {
        Some(
            ConfigModel {
                hf_token: if value.len() == 0 {
                    None
                } else {
                    Some(value)
                },
                ..c
            },
        )
    } else if key == "inference.max_tokens"@ {
        if fits(value, u32::MAX as int) {
            Some(ConfigModel { max_tokens: dec_value(value)->0 as u32, ..c })
        } else {
            None
        }
    } else if key == "inference.temperature"@ {
        if fits(value, u32::MAX as int) {
            Some(ConfigModel { temperature: dec_value(value)->0 as u32, ..c })
        } else {
            None
        }
    } else if key == "inference.top_p"@ {
        if fits(value, u32::MAX as int) {
            Some(ConfigModel { top_p: dec_value(value)->0 as u32, ..c })
        } else {
            None
        }
    } else if key == "inference.use_gpu"@ {
        if value == "true"@ || value == "false"@ {
            Some(ConfigModel { use_gpu: value == "true"@, ..c })
        } else {
            None
        }
    } else {
        None
    }
}

/// Write one configuration value by key, parsing numbers as the integers
/// they are stored as. Fails, changing nothing, exactly on an unknown key or
/// an unparsable or out-of-range value.
pub fn set_config_value(config: &mut Config, key: &str, value: &str) -> (r: Result<(), String>)
    ensures
        (r is Ok ==> config_set_spec(old(config)@, key@, value@) == Some(final(config)@)),
        (r is Err ==> config_set_spec(old(config)@, key@, value@) is None),
        (r is Err ==> final(config)@ == old(config)@),
{
    if str_eq(key, "daemon.host") {
        config.daemon.host = String::from_str(value);
        Ok(())
    } else if str_eq(key, "daemon.port") {
        match parse_u64(value) {
            Some(v) => {
                if v <= u16::MAX as u64 {
                    config.daemon.port = v as u16;
                    Ok(())
                } else {
                    Err(String::from_str("invalid port value"))
                }
            },
            None => Err(String::from_str("invalid port value")),
        }
    } else if str_eq(key, "models.storage_path") {
        config.models.storage_path = String::from_str(value);
        Ok(())
    } else if str_eq(key, "models.hf_token") {
        if value.is_empty() {
            config.models.hf_token = None;
        } else {
            config.models.hf_token = Some(String::from_str(value));
        }
        Ok(())
    } else if str_eq(key, "inference.max_tokens") {
        match parse_u64(value) {
            Some(v) => {
                if v <= u32::MAX as u64 {
                    config.inference.max_tokens = v as u32;
                    Ok(())
                } else {
                    Err(String::from_str("invalid max_tokens value"))
                }
            },
            None => Err(String::from_str("invalid max_tokens value")),
        }
    } else if str_eq(key, "inference.temperature") {
        match parse_u64(value) {
            Some(v) => {
                if v <= u32::MAX as u64 {
                    config.inference.temperature = v as u32;
                    Ok(())
                } else {
                    Err(String::from_str("invalid temperature value"))
                }
            },
            None => Err(String::from_str("invalid temperature value")),
        }
    } else if str_eq(key, "inference.top_p") {
        match parse_u64(value) {
            Some(v) => {
                if v <= u32::MAX as u64 {
                    config.inference.top_p = v as u32;
                    Ok(())
                } else {
                    Err(String::from_str("invalid top_p value"))
                }
            },
            None => Err(String::from_str("invalid top_p value")),
        }
    } else if str_eq(key, "inference.use_gpu") {
        if str_eq(value, "true") {
            config.inference.use_gpu = true;
            Ok(())
        } else if str_eq(value, "false") {
            config.inference.use_gpu = false;
            Ok(())
        } else {
            Err(String::from_str("invalid use_gpu value"))
        }
    } else {
        let mut m = String::from_str("unknown config key: ");
        m.append(key);
        Err(m)
    }
}

} // verus!
