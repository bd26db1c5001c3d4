//! Configuration: a flat mapping of string keys to JSON-like values,
//! validated once at construction.
//!
//! Unknown keys are ignored; a recognized key with an unusable value
//! fails construction with the error named after it; a missing key takes
//! its default. The raw JSON text is parsed by `serde_json` behind a
//! trusted wrapper whose result — a function of the bytes alone — is
//! named `config_pairs_of`; everything after that parse is validated by
//! verified code, so what a configuration text constructs is pinned all
//! the way down to its bytes.

use vstd::prelude::*;
use vstd::string::StringExecFns;

use crate::errors::ConstructionError;
use crate::text::str_eq;

verus! {

/// One configuration value, reduced to what the adapter reads: a string,
/// an unsigned integer, or something it does not recognize.
pub enum ConfigValue {
    Text(String),
    UInt(u64),
    Other,
}

/// Where the reader starts on the log.
#[derive(Clone, Copy, Debug, PartialEq, Eq, Structural)]
pub enum StartPosition {
    /// At the tail: only entries appended after opening are read.
    Now,
    /// At the head: every entry the log holds.
    Earliest,
    /// At an explicit entry offset.
    Offset(u64),
}

/// When `publish` reports success.
#[derive(Clone, Copy, Debug, PartialEq, Eq, Structural)]
pub enum PublishMode {
    /// After the log acknowledged the append. The default.
    Ack,
    /// After the envelope entered the local send queue.
    Buffered,
}

pub const DEFAULT_PORT: u16 = 6379;

pub const DEFAULT_CHANNEL_CAPACITY: usize = 1024;

pub const DEFAULT_BACKOFF_BASE_MS: u64 = 100;

pub const DEFAULT_BACKOFF_MAX_MS: u64 = 5000;

pub const DEFAULT_MAX_RETRIES: u32 = 3;

pub const DEFAULT_MAX_ENTRY_BYTES: usize = 536870912;

/// The validated configuration of one adapter.
pub struct BusConfig {
    pub host: String,
    pub port: u16,
    pub stream_key_prefix: String,
    pub start_position: StartPosition,
    pub channel_capacity: usize,
    pub publish_mode: PublishMode,
    pub backoff_base_ms: u64,
    pub backoff_max_ms: u64,
    pub max_retries: u32,
    pub max_entry_bytes: usize,
}

/// The delay before retry `attempt`: the base doubled `attempt` times,
/// held at the ceiling.
pub open spec fn backoff_spec(base: u64, ceiling: u64, attempt: nat) -> u64
    decreases attempt,
{
    if attempt == 0 {
        if base <= ceiling {
            base
        } else {
            ceiling
        }
    } else {
        let prev = backoff_spec(base, ceiling, (attempt - 1) as nat);
        if 2 * (prev as int) <= ceiling as int {
            (2 * prev) as u64
        } else {
            ceiling
        }
    }
}

impl BusConfig {
    /// What validation guarantees of every accepted configuration.
    pub open spec fn wf(&self) -> bool {
        &&& self.channel_capacity >= 1
        &&& self.max_entry_bytes >= 1
    }

    /// Bounded exponential backoff: the wait in milliseconds before retry
    /// `attempt`, doubling from the configured base up to the configured
    /// ceiling.
    pub fn backoff_delay_ms(&self, attempt: u32) -> (d: u64)
        ensures
            d == backoff_spec(self.backoff_base_ms, self.backoff_max_ms, attempt as nat),
            d <= self.backoff_max_ms,
    {
        let ceiling = self.backoff_max_ms;
        let mut d: u64 = if self.backoff_base_ms <= ceiling {
            self.backoff_base_ms
        } else {
            ceiling
        };
        let mut i: u32 = 0;
        while i < attempt
            invariant
                i <= attempt,
                d == backoff_spec(self.backoff_base_ms, ceiling, i as nat),
                d <= ceiling,
                ceiling == self.backoff_max_ms,
            decreases attempt - i,
        {
            d = if d <= ceiling / 2 {
                2 * d
            } else {
                ceiling
            };
            i = i + 1;
        }
        d
    }
}

/// The pairs as the specifications see them: each key by its characters.
pub open spec fn pairs_view(ps: Seq<(String, ConfigValue)>) -> Seq<(Seq<char>, ConfigValue)> {
    ps.map_values(|p: (String, ConfigValue)| (p.0@, p.1))
}

/// The value bound to the first occurrence of `key`, if any.
pub open spec fn lookup_key(pairs: Seq<(Seq<char>, ConfigValue)>, key: Seq<char>) -> Option<
    ConfigValue,
>
    decreases pairs.len(),
{
    if pairs.len() == 0 {
        None
    } else if pairs[0].0 == key {
        Some(pairs[0].1)
    } else {
        lookup_key(pairs.drop_first(), key)
    }
}

/// What `host` comes out as: its string value, or the default.
pub open spec fn parsed_host(pairs: Seq<(Seq<char>, ConfigValue)>) -> Result<
    Seq<char>,
    ConstructionError,
> {
    match lookup_key(pairs, "host"@) {
        None => Ok("127.0.0.1"@),
        Some(ConfigValue::Text(s)) => Ok(s@),
        Some(_) => Err(ConstructionError::InvalidHost),
    }
}

/// What `port` comes out as: an integer within `0..=65535`, or the default.
pub open spec fn parsed_port(pairs: Seq<(Seq<char>, ConfigValue)>) -> Result<
    u16,
    ConstructionError,
> {
    match lookup_key(pairs, "port"@) {
        None => Ok(DEFAULT_PORT),
        Some(ConfigValue::UInt(u)) => if u <= 65535 {
            Ok(u as u16)
        } else {
            Err(ConstructionError::InvalidPort)
        },
        Some(_) => Err(ConstructionError::InvalidPort),
    }
}

/// What `stream_key_prefix` comes out as.
pub open spec fn parsed_prefix(pairs: Seq<(Seq<char>, ConfigValue)>) -> Result<
    Seq<char>,
    ConstructionError,
> {
    match lookup_key(pairs, "stream_key_prefix"@) {
        None => Ok("stream"@),
        Some(ConfigValue::Text(s)) => Ok(s@),
        Some(_) => Err(ConstructionError::InvalidStreamKeyPrefix),
    }
}

/// What `start_position` comes out as: `"now"`, `"earliest"`, or an
/// explicit offset.
pub open spec fn parsed_start(pairs: Seq<(Seq<char>, ConfigValue)>) -> Result<
    StartPosition,
    ConstructionError,
> {
    match lookup_key(pairs, "start_position"@) {
        None => Ok(StartPosition::Now),
        Some(ConfigValue::Text(s)) => if s@ == "now"@ {
            Ok(StartPosition::Now)
        } else if s@ == "earliest"@ {
            Ok(StartPosition::Earliest)
        } else {
            Err(ConstructionError::InvalidStartPosition)
        },
        Some(ConfigValue::UInt(u)) => Ok(StartPosition::Offset(u)),
        Some(_) => Err(ConstructionError::InvalidStartPosition),
    }
}

/// What `channel_capacity` comes out as: a positive count that fits the
/// machine.
pub open spec fn parsed_capacity(pairs: Seq<(Seq<char>, ConfigValue)>) -> Result<
    usize,
    ConstructionError,
> {
    match lookup_key(pairs, "channel_capacity"@) {
        None => Ok(DEFAULT_CHANNEL_CAPACITY),
        Some(ConfigValue::UInt(u)) => if 1 <= u <= usize::MAX {
            Ok(u as usize)
        } else {
            Err(ConstructionError::InvalidChannelCapacity)
        },
        Some(_) => Err(ConstructionError::InvalidChannelCapacity),
    }
}

/// What `publish_mode` comes out as: `"ack"` or `"buffered"`.
pub open spec fn parsed_mode(pairs: Seq<(Seq<char>, ConfigValue)>) -> Result<
    PublishMode,
    ConstructionError,
> {
    match lookup_key(pairs, "publish_mode"@) {
        None => Ok(PublishMode::Ack),
        Some(ConfigValue::Text(s)) => if s@ == "ack"@ {
            Ok(PublishMode::Ack)
        } else if s@ == "buffered"@ {
            Ok(PublishMode::Buffered)
        } else {
            Err(ConstructionError::InvalidPublishMode)
        },
        Some(_) => Err(ConstructionError::InvalidPublishMode),
    }
}

/// What `reconnect_backoff_ms` comes out as.
pub open spec fn parsed_backoff_base(pairs: Seq<(Seq<char>, ConfigValue)>) -> Result<
    u64,
    ConstructionError,
> {
    match lookup_key(pairs, "reconnect_backoff_ms"@) {
        None => Ok(DEFAULT_BACKOFF_BASE_MS),
        Some(ConfigValue::UInt(u)) => Ok(u),
        Some(_) => Err(ConstructionError::InvalidReconnectBackoff),
    }
}

/// What `reconnect_backoff_max_ms` comes out as.
pub open spec fn parsed_backoff_max(pairs: Seq<(Seq<char>, ConfigValue)>) -> Result<
    u64,
    ConstructionError,
> {
    match lookup_key(pairs, "reconnect_backoff_max_ms"@) {
        None => Ok(DEFAULT_BACKOFF_MAX_MS),
        Some(ConfigValue::UInt(u)) => Ok(u),
        Some(_) => Err(ConstructionError::InvalidReconnectBackoff),
    }
}

/// What `reconnect_max_retries` comes out as.
pub open spec fn parsed_retries(pairs: Seq<(Seq<char>, ConfigValue)>) -> Result<
    u32,
    ConstructionError,
> {
    match lookup_key(pairs, "reconnect_max_retries"@) {
        None => Ok(DEFAULT_MAX_RETRIES),
        Some(ConfigValue::UInt(u)) => if u <= u32::MAX {
            Ok(u as u32)
        } else {
            Err(ConstructionError::InvalidReconnectRetries)
        },
        Some(_) => Err(ConstructionError::InvalidReconnectRetries),
    }
}

/// What `max_entry_bytes` comes out as: a positive size that fits the
/// machine.
pub open spec fn parsed_max_entry(pairs: Seq<(Seq<char>, ConfigValue)>) -> Result<
    usize,
    ConstructionError,
> {
    match lookup_key(pairs, "max_entry_bytes"@) {
        None => Ok(DEFAULT_MAX_ENTRY_BYTES),
        Some(ConfigValue::UInt(u)) => if 1 <= u <= usize::MAX {
            Ok(u as usize)
        } else {
            Err(ConstructionError::InvalidMaxEntryBytes)
        },
        Some(_) => Err(ConstructionError::InvalidMaxEntryBytes),
    }
}

/// The first validation error in a fixed field order, or `None` when the
/// whole mapping is acceptable.
pub open spec fn config_error(pairs: Seq<(Seq<char>, ConfigValue)>) -> Option<ConstructionError> {
    if parsed_host(pairs) is Err {
        Some(parsed_host(pairs)->Err_0)
    } else if parsed_port(pairs) is Err {
        Some(parsed_port(pairs)->Err_0)
    } else if parsed_prefix(pairs) is Err {
        Some(parsed_prefix(pairs)->Err_0)
    } else if parsed_start(pairs) is Err {
        Some(parsed_start(pairs)->Err_0)
    } else if parsed_capacity(pairs) is Err {
        Some(parsed_capacity(pairs)->Err_0)
    } else if parsed_mode(pairs) is Err {
        Some(parsed_mode(pairs)->Err_0)
    } else if parsed_backoff_base(pairs) is Err {
        Some(parsed_backoff_base(pairs)->Err_0)
    } else if parsed_backoff_max(pairs) is Err {
        Some(parsed_backoff_max(pairs)->Err_0)
    } else if parsed_retries(pairs) is Err {
        Some(parsed_retries(pairs)->Err_0)
    } else if parsed_max_entry(pairs) is Err {
        Some(parsed_max_entry(pairs)->Err_0)
    } else {
        None
    }
}

/// Whether a validated configuration is exactly what the mapping says.
pub open spec fn config_matches(cfg: BusConfig, pairs: Seq<(Seq<char>, ConfigValue)>) -> bool {
    &&& parsed_host(pairs) == Ok::<Seq<char>, ConstructionError>(cfg.host@)
    &&& parsed_port(pairs) == Ok::<u16, ConstructionError>(cfg.port)
    &&& parsed_prefix(pairs) == Ok::<Seq<char>, ConstructionError>(cfg.stream_key_prefix@)
    &&& parsed_start(pairs) == Ok::<StartPosition, ConstructionError>(cfg.start_position)
    &&& parsed_capacity(pairs) == Ok::<usize, ConstructionError>(cfg.channel_capacity)
    &&& parsed_mode(pairs) == Ok::<PublishMode, ConstructionError>(cfg.publish_mode)
    &&& parsed_backoff_base(pairs) == Ok::<u64, ConstructionError>(cfg.backoff_base_ms)
    &&& parsed_backoff_max(pairs) == Ok::<u64, ConstructionError>(cfg.backoff_max_ms)
    &&& parsed_retries(pairs) == Ok::<u32, ConstructionError>(cfg.max_retries)
    &&& parsed_max_entry(pairs) == Ok::<usize, ConstructionError>(cfg.max_entry_bytes)
}

/// What parsing configuration text yields: the members of the JSON
/// object the bytes spell, in the parser's key order, each value reduced
/// to what the adapter reads — or nothing, when the bytes are not a JSON
/// object. A function of the bytes alone.
pub uninterp spec fn config_pairs_of(data: Seq<u8>) -> Option<Seq<(Seq<char>, ConfigValue)>>;

/// Relies on `serde_json::from_slice` to parse the bytes as a JSON
/// object, whose members come out in the parser's key order, and on
/// `serde_json::Number::as_u64` to read an integer member. Each value is
/// reduced variant for variant: strings and unsigned integers move
/// across, anything else becomes `Other`. Parsing and reduction depend
/// on the bytes alone, so the result is exactly `config_pairs_of` them.
#[verifier::external_body]
fn parse_config_pairs(data: &Vec<u8>) -> (r: Option<Vec<(String, ConfigValue)>>)
    ensures
        match r {
            Some(pairs) => config_pairs_of(data@) == Some(pairs_view(pairs@)),
            None => config_pairs_of(data@) is None,
        },
{
    let m: serde_json::Map<String, serde_json::Value> = match serde_json::from_slice(data) {
        Ok(m) => m,
        Err(_) => return None,
    };
    Some(m.into_iter().map(|(k, v)| (k, match v {
        serde_json::Value::String(s) => ConfigValue::Text(s),
        serde_json::Value::Number(n) => match n.as_u64() {
            Some(u) => ConfigValue::UInt(u),
            None => ConfigValue::Other,
        },
        _ => ConfigValue::Other,
    })).collect())
}

/// Parses configuration text into plain key/value pairs: exactly the
/// members `config_pairs_of` the bytes names, or `InvalidConfigText`
/// exactly when the bytes are not a JSON object.
pub fn config_pairs_from_json(data: &Vec<u8>) -> (r: Result<
    Vec<(String, ConfigValue)>,
    ConstructionError,
>)
    ensures
        match r {
            Ok(pairs) => config_pairs_of(data@) == Some(pairs_view(pairs@)),
            Err(e) => e == ConstructionError::InvalidConfigText && config_pairs_of(data@)
                is None,
        },
        r is Ok <==> config_pairs_of(data@) is Some,
{
    match parse_config_pairs(data) {
        None => Err(ConstructionError::InvalidConfigText),
        Some(pairs) => Ok(pairs),
    }
}

/// The index of the first pair bound to `key`, with what it settles about
/// the mapping.
fn find_key(pairs: &Vec<(String, ConfigValue)>, key: &str) -> (r: Option<usize>)
    ensures
        match r {
            Some(i) => i < pairs@.len() && pairs@[i as int].0@ == key@ && lookup_key(
                pairs_view(pairs@),
                key@,
            ) == Some(pairs@[i as int].1),
            None => lookup_key(pairs_view(pairs@), key@) is None,
        },
{
    let ghost pv = pairs_view(pairs@);
    let n: usize = pairs.len();
    let mut i: usize = 0;
    proof {
        assert(pv.skip(0) =~= pv);
    }
    while i < n
        invariant
            pv == pairs_view(pairs@),
            n == pairs@.len(),
            i <= n,
            lookup_key(pv, key@) == lookup_key(pv.skip(i as int), key@),
        decreases n - i,
    {
        proof {
            assert(pv.len() == pairs@.len());
            assert(pv[i as int] == (pairs@[i as int].0@, pairs@[i as int].1));
            assert(pv.skip(i as int).len() > 0);
            assert(pv.skip(i as int)[0] == pv[i as int]);
            assert(pv.skip(i as int).drop_first() =~= pv.skip(i as int + 1));
        }
        if str_eq(pairs[i].0.as_str(), key) {
            return Some(i);
        }
        i = i + 1;
    }
    proof {
        assert(pv.skip(n as int) =~= Seq::<(Seq<char>, ConfigValue)>::empty());
    }
    None
}

impl BusConfig {
    /// Validates a flat mapping into a configuration: the exact value of
    /// every recognized key, the default for every absent one, and the
    /// first unusable value's error. Unknown keys are ignored.
    pub fn from_pairs(pairs: &Vec<(String, ConfigValue)>) -> (r: Result<
        BusConfig,
        ConstructionError,
    >)
        ensures
            match r {
                Ok(cfg) => config_error(pairs_view(pairs@)) is None && cfg.wf() && config_matches(
                    cfg,
                    pairs_view(pairs@),
                ),
                Err(e) => config_error(pairs_view(pairs@)) == Some(e),
            },
    {
        let host: String = match find_key(pairs, "host") {
            None => String::from_str("127.0.0.1"),
            Some(i) => match &pairs[i].1 {
                ConfigValue::Text(s) => String::from_str(s.as_str()),
                _ => { return Err(ConstructionError::InvalidHost) },
            },
        };
        let port: u16 = match find_key(pairs, "port") {
            None => DEFAULT_PORT,
            Some(i) => match &pairs[i].1 {
                ConfigValue::UInt(u) => if *u <= 65535 {
                    *u as u16
                } else {
                    return Err(ConstructionError::InvalidPort);
                },
                _ => { return Err(ConstructionError::InvalidPort) },
            },
        };
        let stream_key_prefix: String = match find_key(pairs, "stream_key_prefix") {
            None => String::from_str("stream"),
            Some(i) => match &pairs[i].1 {
                ConfigValue::Text(s) => String::from_str(s.as_str()),
                _ => { return Err(ConstructionError::InvalidStreamKeyPrefix) },
            },
        };
        let start_position: StartPosition = match find_key(pairs, "start_position") {
            None => StartPosition::Now,
            Some(i) => match &pairs[i].1 {
                ConfigValue::Text(s) => if str_eq(s.as_str(), "now") {
                    StartPosition::Now
                } else if str_eq(s.as_str(), "earliest") {
                    StartPosition::Earliest
                } else {
                    return Err(ConstructionError::InvalidStartPosition);
                },
                ConfigValue::UInt(u) => StartPosition::Offset(*u),
                _ => { return Err(ConstructionError::InvalidStartPosition) },
            },
        };
        let channel_capacity: usize = match find_key(pairs, "channel_capacity") {
            None => DEFAULT_CHANNEL_CAPACITY,
            Some(i) => match &pairs[i].1 {
                ConfigValue::UInt(u) => if 1 <= *u && *u <= usize::MAX as u64 {
                    *u as usize
                } else {
                    return Err(ConstructionError::InvalidChannelCapacity);
                },
                _ => { return Err(ConstructionError::InvalidChannelCapacity) },
            },
        };
        let publish_mode: PublishMode = match find_key(pairs, "publish_mode") {
            None => PublishMode::Ack,
            Some(i) => match &pairs[i].1 {
                ConfigValue::Text(s) => if str_eq(s.as_str(), "ack") {
                    PublishMode::Ack
                } else if str_eq(s.as_str(), "buffered") {
                    PublishMode::Buffered
                } else {
                    return Err(ConstructionError::InvalidPublishMode);
                },
                _ => { return Err(ConstructionError::InvalidPublishMode) },
            },
        };
        let backoff_base_ms: u64 = match find_key(pairs, "reconnect_backoff_ms") {
            None => DEFAULT_BACKOFF_BASE_MS,
            Some(i) => match &pairs[i].1 {
                ConfigValue::UInt(u) => *u,
                _ => { return Err(ConstructionError::InvalidReconnectBackoff) },
            },
        };
        let backoff_max_ms: u64 = match find_key(pairs, "reconnect_backoff_max_ms") {
            None => DEFAULT_BACKOFF_MAX_MS,
            Some(i) => match &pairs[i].1 {
                ConfigValue::UInt(u) => *u,
                _ => { return Err(ConstructionError::InvalidReconnectBackoff) },
            },
        };
        let max_retries: u32 = match find_key(pairs, "reconnect_max_retries") {
            None => DEFAULT_MAX_RETRIES,
            Some(i) => match &pairs[i].1 {
                ConfigValue::UInt(u) => if *u <= u32::MAX as u64 {
                    *u as u32
                } else {
                    return Err(ConstructionError::InvalidReconnectRetries);
                },
                _ => { return Err(ConstructionError::InvalidReconnectRetries) },
            },
        };
        let max_entry_bytes: usize = match find_key(pairs, "max_entry_bytes") {
            None => DEFAULT_MAX_ENTRY_BYTES,
            Some(i) => match &pairs[i].1 {
                ConfigValue::UInt(u) => if 1 <= *u && *u <= usize::MAX as u64 {
                    *u as usize
                } else {
                    return Err(ConstructionError::InvalidMaxEntryBytes);
                },
                _ => { return Err(ConstructionError::InvalidMaxEntryBytes) },
            },
        };
        Ok(
            BusConfig {
                host,
                port,
                stream_key_prefix,
                start_position,
                channel_capacity,
                publish_mode,
                backoff_base_ms,
                backoff_max_ms,
                max_retries,
                max_entry_bytes,
            },
        )
    }
}

} // verus!
