//! The relay's settings.

use crate::hex_text::{self, decoded, hex_chars, is_hex, HexError};
use vstd::prelude::*;
use vstd::string::StrSliceExecFns;
use vstd::utf8::encode_utf8;

verus! {

pub const DEFAULT_LISTEN_ADDRESS: &'static str = "0.0.0.0:21117";

pub const DEFAULT_HEARTBEAT_INTERVAL_SECS: u64 = 10;

pub const DEFAULT_HEARTBEAT_TIMEOUT_SECS: u64 = 30;

pub const DEFAULT_CONFIG_PATH: &'static str = "relay.toml";

/// The bytes in a key.
pub const KEY_LEN: usize = 32;

/// What the relay is told by its settings file.
#[derive(Debug, Clone)]
pub struct RelayConfig {
    pub listen_address: String,
    /// The shared key, 32 bytes as hexadecimal text; generated when it is missing or
    /// empty.
    pub pre_shared_key: Option<String>,
    /// Seconds between two pings.
    pub heartbeat_interval_secs: u64,
    /// Seconds of silence after which a device counts as gone.
    pub heartbeat_timeout_secs: u64,
}

/// Why the settings hold no usable key.
#[derive(Debug, Clone, Copy, PartialEq, Eq, Structural)]
pub enum KeyError {
    NotSet,
    BadFormat(HexError),
    /// The key is hexadecimal, but of so many bytes.
    BadLength(usize),
}

/// Settings that are ready to use, and whether they have to be written to the file.
#[derive(Debug)]
pub struct LoadedConfig {
    pub config: RelayConfig,
    pub save: bool,
}

pub fn default_listen_address() -> (address: String)
    ensures
        address@ == DEFAULT_LISTEN_ADDRESS@,
{
    DEFAULT_LISTEN_ADDRESS.to_owned()
}

/// `rand::Rng::fill` on `rand::thread_rng()`: every byte becomes a random one.
/// Nothing is said of the bytes but that there are as many as before.
#[verifier::external_body]
fn fill_random(buffer: &mut Vec<u8>)
    ensures
        final(buffer)@.len() == old(buffer)@.len(),
{
    rand::Rng::fill(&mut rand::thread_rng(), buffer.as_mut_slice());
}

/// Whether settings lack a key.
pub open spec fn lacks_key(config: RelayConfig) -> bool {
    match config.pre_shared_key {
        Some(key) => key@.len() == 0,
        None => true,
    }
}

/// What becomes of the settings that were found, if any, given a fresh key.
pub open spec fn completed(found: Option<RelayConfig>, key: String, loaded: LoadedConfig) -> bool {
    match found {
        Some(config) => if lacks_key(config) {
            loaded.save && loaded.config == (RelayConfig { pre_shared_key: Some(key), ..config })
        } else {
            !loaded.save && loaded.config == config
        },
        None => {
            &&& loaded.save
            &&& loaded.config.listen_address@ == DEFAULT_LISTEN_ADDRESS@
            &&& loaded.config.pre_shared_key == Some(key)
            &&& loaded.config.heartbeat_interval_secs == DEFAULT_HEARTBEAT_INTERVAL_SECS
            &&& loaded.config.heartbeat_timeout_secs == DEFAULT_HEARTBEAT_TIMEOUT_SECS
        },
    }
}

impl RelayConfig {
    /// Whether a key has to be generated before the settings can be used.
    pub fn needs_key(&self) -> (b: bool)
        ensures
            b == lacks_key(*self),
    {
        match &self.pre_shared_key {
            Some(key) => key.as_str().is_empty(),
            None => true,
        }
    }

    /// Completes the settings that were found, or makes default ones, with `key`.
    pub fn complete(found: Option<RelayConfig>, key: String) -> (loaded: LoadedConfig)
        ensures
            completed(found, key, loaded),
    {
        match found {
            Some(config) => if config.needs_key() {
                LoadedConfig {
                    config: RelayConfig {
                        listen_address: config.listen_address,
                        pre_shared_key: Some(key),
                        heartbeat_interval_secs: config.heartbeat_interval_secs,
                        heartbeat_timeout_secs: config.heartbeat_timeout_secs,
                    },
                    save: true,
                }
            } else {
                LoadedConfig { config, save: false }
            },
            None => LoadedConfig {
                config: RelayConfig {
                    listen_address: default_listen_address(),
                    pre_shared_key: Some(key),
                    heartbeat_interval_secs: DEFAULT_HEARTBEAT_INTERVAL_SECS,
                    heartbeat_timeout_secs: DEFAULT_HEARTBEAT_TIMEOUT_SECS,
                },
                save: true,
            },
        }
    }

    /// Makes the settings that were found, if any, ready to use: a missing key is
    /// generated, and then the settings have to be saved.
    pub fn load_or_create(found: Option<RelayConfig>) -> (loaded: LoadedConfig)
        ensures
            is_ready(found, loaded),
    {
        match found {
            Some(config) => if config.needs_key() {
                Self::complete(Some(config), Self::generate_key())
            } else {
                LoadedConfig { config, save: false }
            },
            None => Self::complete(None, Self::generate_key()),
        }
    }

    /// The text of a key.
    pub fn key_text(key: &[u8]) -> (text: String)
        ensures
            text@ == hex_chars(key@),
    {
        hex_text::encode(key)
    }

    /// Generates a key of 256 random bits, as 64 hexadecimal digits.
    pub fn generate_key() -> (key: String)
        ensures
            is_generated(key),
    {
        let mut bytes: Vec<u8> = vec![0; KEY_LEN];
        fill_random(&mut bytes);
        Self::key_text(bytes.as_slice())
    }

    /// The 32 bytes of the key.
    pub fn key_bytes(&self) -> (r: Result<Vec<u8>, KeyError>)
        ensures
            reads_key(*self, r),
    {
        match &self.pre_shared_key {
            Some(key) => {
                if key.as_str().is_empty() {
                    return Err(KeyError::NotSet);
                }
                match hex_text::decode(key.as_str()) {
                    Ok(bytes) => {
                        if bytes.len() == KEY_LEN {
                            Ok(bytes)
                        } else {
                            Err(KeyError::BadLength(bytes.len()))
                        }
                    },
                    Err(e) => Err(KeyError::BadFormat(e)),
                }
            },
            None => Err(KeyError::NotSet),
        }
    }
}

/// What the key of the settings reads as: 32 bytes, or why it does not.
pub open spec fn reads_key(config: RelayConfig, r: Result<Vec<u8>, KeyError>) -> bool {
    if lacks_key(config) {
        r matches Err(e) && e == KeyError::NotSet
    } else {
        let text = config.pre_shared_key->0@;
        match r {
            Ok(bytes) => bytes@.len() == KEY_LEN && decoded(text, Ok(bytes)),
            Err(KeyError::BadFormat(e)) => decoded(text, Err(e)),
            Err(KeyError::BadLength(n)) => {
                &&& n != KEY_LEN
                &&& is_hex(encode_utf8(text))
                &&& n == hex_text::hex_bytes(encode_utf8(text)).len()
            },
            Err(KeyError::NotSet) => false,
        }
    }
}

/// Whether settings are ready to use: with the key that was found, or with one that was
/// generated.
pub open spec fn is_ready(found: Option<RelayConfig>, loaded: LoadedConfig) -> bool {
    match found {
        Some(config) if !lacks_key(config) => !loaded.save && loaded.config == config,
        _ => exists|key: String| is_generated(key) && #[trigger] completed(found, key, loaded),
    }
}

/// Whether `path` is the settings file that a first argument stands for.
pub open spec fn is_config_path(arg: Option<String>, path: String) -> bool {
    match arg {
        Some(a) if a@.len() == 0 || a@[0] != '-' => path == a,
        _ => path@ == DEFAULT_CONFIG_PATH@,
    }
}

/// Whether `key` is the text of 32 bytes.
pub open spec fn is_generated(key: String) -> bool {
    exists|bytes: Seq<u8>| bytes.len() == KEY_LEN && key@ == #[trigger] hex_chars(bytes)
}

/// The settings file that the relay reads: its first argument, unless that is
/// missing or looks like a flag.
pub fn config_path(arg: Option<String>) -> (path: String)
    ensures
        is_config_path(arg, path),
{
    match arg {
        Some(a) => {
            if a.as_str().is_empty() || a.as_str().get_char(0) != '-' {
                a
            } else {
                DEFAULT_CONFIG_PATH.to_owned()
            }
        },
        None => DEFAULT_CONFIG_PATH.to_owned(),
    }
}

/// A generated key can be used: it reads as 32 bytes.
pub proof fn law_generated_key_is_usable(key: String)
    requires
        is_generated(key),
    ensures
        key@.len() == 64,
        is_hex(encode_utf8(key@)),
        hex_text::hex_bytes(encode_utf8(key@)).len() == KEY_LEN,
{
    let bytes = choose|bytes: Seq<u8>|
        bytes.len() == KEY_LEN && key@ == #[trigger] hex_chars(bytes);
    hex_text::law_key_round_trip(bytes);
}

/// Completed settings have a key, keep everything else that was found, and keep a key that
/// was found; completed again, with whatever key, they stay as they are.
pub proof fn law_settings_are_completed_once(
    found: Option<RelayConfig>,
    key: String,
    loaded: LoadedConfig,
    other_key: String,
    again: LoadedConfig,
)
    requires
        completed(found, key, loaded),
        key@.len() > 0,
        completed(Some(loaded.config), other_key, again),
    ensures
        !lacks_key(loaded.config),
        again.config == loaded.config,
        !again.save,
        found matches Some(config) ==> {
            &&& loaded.config.listen_address == config.listen_address
            &&& loaded.config.heartbeat_interval_secs == config.heartbeat_interval_secs
            &&& loaded.config.heartbeat_timeout_secs == config.heartbeat_timeout_secs
            &&& !lacks_key(config) ==> loaded.config.pre_shared_key == config.pre_shared_key
            &&& loaded.save <==> lacks_key(config)
        },
        found is None ==> loaded.save,
        loaded.config.pre_shared_key is Some && loaded.config.pre_shared_key->0@.len() > 0,
{
}

/// A relay that begins without settings listens on all addresses, and waits for three
/// unanswered pings, ten seconds apart, before it takes a device for gone.
pub proof fn law_new_settings_bear_with_lost_pings(key: String, loaded: LoadedConfig)
    requires
        completed(None, key, loaded),
    ensures
        loaded.config.listen_address@ == "0.0.0.0:21117"@,
        loaded.config.heartbeat_interval_secs == 10,
        loaded.config.heartbeat_timeout_secs == 3 * loaded.config.heartbeat_interval_secs,
        loaded.config.pre_shared_key == Some(key),
{
}

/// The text of 32 bytes reads as these bytes, and as nothing else; the text of more or
/// fewer bytes is refused for its length, and settings without a text have no key.
pub proof fn law_a_key_reads_as_its_bytes(
    config: RelayConfig,
    bytes: Seq<u8>,
    r: Result<Vec<u8>, KeyError>,
)
    requires
        config.pre_shared_key is Some,
        config.pre_shared_key->0@ == hex_chars(bytes),
        reads_key(config, r),
    ensures
        bytes.len() == 32 ==> r is Ok && r->Ok_0@ == bytes,
        bytes.len() != 32 && bytes.len() > 0 ==> r is Err && r->Err_0 is BadLength
            && r->Err_0->BadLength_0 == bytes.len(),
        bytes.len() == 0 ==> r is Err && r->Err_0 is NotSet,
{
    hex_text::law_key_round_trip(bytes);
    assert(config.pre_shared_key->0@.len() == 2 * bytes.len());
}

/// An argument that looks like a flag names no file; any other is the file's name, letter
/// for letter.
pub proof fn law_flags_name_no_file(arg: Option<String>, path: String)
    requires
        is_config_path(arg, path),
    ensures
        arg is None ==> path@ == "relay.toml"@,
        arg is Some && arg->0@.len() > 0 && arg->0@[0] == '-' ==> path@ == "relay.toml"@,
        arg is Some && !(arg->0@.len() > 0 && arg->0@[0] == '-') ==> path@ == arg->0@,
{
}

/// Settings that are ready have a key; one that was found is left as it is, and one that
/// was not found is generated, reads as 32 bytes, and is saved. Once saved, nothing is
/// generated or saved again.
pub proof fn law_ready_settings_have_a_key(
    found: Option<RelayConfig>,
    loaded: LoadedConfig,
    r: Result<Vec<u8>, KeyError>,
    again: LoadedConfig,
)
    requires
        is_ready(found, loaded),
        reads_key(loaded.config, r),
        is_ready(Some(loaded.config), again),
    ensures
        loaded.config.pre_shared_key is Some && loaded.config.pre_shared_key->0@.len() > 0,
        loaded.save <==> found is None || lacks_key(found->0),
        loaded.save ==> r is Ok && r->Ok_0@.len() == 32,
        !loaded.save ==> Some(loaded.config) == found,
        again.config == loaded.config,
        !again.save,
{
    if found is None || lacks_key(found->0) {
        let key = choose|key: String| is_generated(key) && #[trigger] completed(found, key, loaded);
        let bytes = choose|bytes: Seq<u8>|
            bytes.len() == KEY_LEN && key@ == #[trigger] hex_chars(bytes);
        law_a_key_reads_as_its_bytes(loaded.config, bytes, r);
    }
}

} // verus!
