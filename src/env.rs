//! Process settings read once at startup from named environment entries.
use crate::text::{bool_text_value, parse_bool_text, parse_u64_text, u64_text_value};
use vstd::prelude::*;

verus! {

/// The named environment entries; every one of them is required.
#[derive(Clone, Copy, PartialEq, Eq, Structural, Debug)]
pub enum ConfigKey {
    StartBlockHeightFromCache,
    StartBlockHeight,
    RedisUrl,
    PubList,
    Mcs,
    Test,
    LogFile,
    LogLevel,
}

impl ConfigKey {
    pub open spec fn spec_name(self) -> Seq<char> {
        match self {
            ConfigKey::StartBlockHeightFromCache => "START_BLOCK_HEIGHT_FROM_CACHE"@,
            ConfigKey::StartBlockHeight => "START_BLOCK_HEIGHT"@,
            ConfigKey::RedisUrl => "REDIS_URL"@,
            ConfigKey::PubList => "PUB_LIST"@,
            ConfigKey::Mcs => "MCS"@,
            ConfigKey::Test => "TEST"@,
            ConfigKey::LogFile => "LOG_FILE"@,
            ConfigKey::LogLevel => "LOG_LEVEL"@,
        }
    }

    /// The environment entry's name.
    pub fn name(self) -> (r: &'static str)
        ensures
            r@ == self.spec_name(),
    {
        match self {
            ConfigKey::StartBlockHeightFromCache => "START_BLOCK_HEIGHT_FROM_CACHE",
            ConfigKey::StartBlockHeight => "START_BLOCK_HEIGHT",
            ConfigKey::RedisUrl => "REDIS_URL",
            ConfigKey::PubList => "PUB_LIST",
            ConfigKey::Mcs => "MCS",
            ConfigKey::Test => "TEST",
            ConfigKey::LogFile => "LOG_FILE",
            ConfigKey::LogLevel => "LOG_LEVEL",
        }
    }

    /// Entries that hold `true` or `false`.
    pub open spec fn is_flag(self) -> bool {
        self == ConfigKey::StartBlockHeightFromCache || self == ConfigKey::Test
    }

    /// Entries that hold an unsigned 64-bit decimal.
    pub open spec fn is_height(self) -> bool {
        self == ConfigKey::StartBlockHeight
    }
}

/// Settings for resuming the stream and reaching the message sink.
#[derive(Debug)]
pub struct Env {
    pub start_block_height_from_cache: bool,
    pub start_block_height: u64,
    pub redis_url: String,
    pub pub_list: String,
    pub mcs: String,
    pub test: bool,
    pub log_file: String,
    pub log_level: String,
}

/// Why the settings could not be loaded, naming the entry at fault.
#[derive(Debug)]
pub enum ConfigError {
    Missing { key: String },
    Invalid { key: String, value: String },
}

/// A loading failure, as names and values.
pub ghost enum ConfigFault {
    Missing(Seq<char>),
    Invalid(Seq<char>, Seq<char>),
}

impl View for ConfigError {
    type V = ConfigFault;

    open spec fn view(&self) -> ConfigFault {
        match self {
            ConfigError::Missing { key } => ConfigFault::Missing(key@),
            ConfigError::Invalid { key, value } => ConfigFault::Invalid(key@, value@),
        }
    }
}

/// The value of the first entry named `key`.
pub open spec fn env_lookup(vars: Seq<(String, String)>, key: Seq<char>) -> Option<Seq<char>>
    decreases vars.len(),
{
    if vars.len() == 0 {
        None
    } else if vars[0].0@ == key {
        Some(vars[0].1@)
    } else {
        env_lookup(vars.drop_first(), key)
    }
}

/// What is wrong with one entry, if anything.
pub open spec fn entry_fault(vars: Seq<(String, String)>, k: ConfigKey) -> Option<ConfigFault> {
    match env_lookup(vars, k.spec_name()) {
        None => Some(ConfigFault::Missing(k.spec_name())),
        Some(v) => if (k.is_flag() && bool_text_value(v) is None) || (k.is_height()
            && u64_text_value(v) is None) {
            Some(ConfigFault::Invalid(k.spec_name(), v))
        } else {
            None
        },
    }
}

pub open spec fn first_fault(a: Option<ConfigFault>, b: Option<ConfigFault>) -> Option<ConfigFault> {
    if a is Some {
        a
    } else {
        b
    }
}

/// The fault that loading reports: that of the first faulty entry, in the
/// order of the fields of [`Env`].
pub open spec fn config_fault(vars: Seq<(String, String)>) -> Option<ConfigFault> {
    first_fault(
        entry_fault(vars, ConfigKey::StartBlockHeightFromCache),
        first_fault(
            entry_fault(vars, ConfigKey::StartBlockHeight),
            first_fault(
                entry_fault(vars, ConfigKey::RedisUrl),
                first_fault(
                    entry_fault(vars, ConfigKey::PubList),
                    first_fault(
                        entry_fault(vars, ConfigKey::Mcs),
                        first_fault(
                            entry_fault(vars, ConfigKey::Test),
                            first_fault(
                                entry_fault(vars, ConfigKey::LogFile),
                                entry_fault(vars, ConfigKey::LogLevel),
                            ),
                        ),
                    ),
                ),
            ),
        ),
    )
}

/// The text value of an entry that is present.
pub open spec fn entry_text(vars: Seq<(String, String)>, k: ConfigKey) -> Seq<char> {
    env_lookup(vars, k.spec_name()).unwrap()
}

/// `e` holds exactly what the entries of `vars` say.
pub open spec fn env_matches(vars: Seq<(String, String)>, e: Env) -> bool {
    &&& Some(e.start_block_height_from_cache) == bool_text_value(
        entry_text(vars, ConfigKey::StartBlockHeightFromCache),
    )
    &&& Some(e.start_block_height) == u64_text_value(entry_text(vars, ConfigKey::StartBlockHeight))
    &&& e.redis_url@ == entry_text(vars, ConfigKey::RedisUrl)
    &&& e.pub_list@ == entry_text(vars, ConfigKey::PubList)
    &&& e.mcs@ == entry_text(vars, ConfigKey::Mcs)
    &&& Some(e.test) == bool_text_value(entry_text(vars, ConfigKey::Test))
    &&& e.log_file@ == entry_text(vars, ConfigKey::LogFile)
    &&& e.log_level@ == entry_text(vars, ConfigKey::LogLevel)
}

/// Finds the value of the first entry named `key`.
fn lookup(vars: &Vec<(String, String)>, key: &str) -> (r: Option<String>)
    ensures
        match r {
            None => env_lookup(vars@, key@) is None,
            Some(v) => env_lookup(vars@, key@) == Some(v@),
        },
{
    let wanted = key.to_owned();
    let mut i: usize = 0;
    assert(vars@.skip(0) =~= vars@);
    while i < vars.len()
        invariant
            i <= vars@.len(),
            wanted@ == key@,
            env_lookup(vars@, key@) == env_lookup(vars@.skip(i as int), key@),
        decreases vars.len() - i,
    {
        assert(vars@.skip(i as int).drop_first() =~= vars@.skip(i + 1));
        if vars[i].0 == wanted {
            return Some(vars[i].1.clone());
        }
        i = i + 1;
    }
    None
}

/// Reads a required text entry.
fn text_entry(vars: &Vec<(String, String)>, k: ConfigKey) -> (r: Result<String, ConfigError>)
    requires
        !k.is_flag(),
        !k.is_height(),
    ensures
        match r {
            Ok(v) => entry_fault(vars@, k) is None && v@ == entry_text(vars@, k),
            Err(e) => entry_fault(vars@, k) == Some(e@),
        },
{
    let name = k.name();
    match lookup(vars, name) {
        Some(v) => Ok(v),
        None => Err(ConfigError::Missing { key: name.to_owned() }),
    }
}

/// Reads a required flag entry.
fn flag_entry(vars: &Vec<(String, String)>, k: ConfigKey) -> (r: Result<bool, ConfigError>)
    requires
        k.is_flag(),
    ensures
        match r {
            Ok(b) => entry_fault(vars@, k) is None && Some(b) == bool_text_value(
                entry_text(vars@, k),
            ),
            Err(e) => entry_fault(vars@, k) == Some(e@),
        },
{
    let name = k.name();
    match lookup(vars, name) {
        None => Err(ConfigError::Missing { key: name.to_owned() }),
        Some(v) => match parse_bool_text(v.as_str()) {
            Some(b) => Ok(b),
            None => Err(ConfigError::Invalid { key: name.to_owned(), value: v }),
        },
    }
}

/// Reads a required height entry.
fn height_entry(vars: &Vec<(String, String)>, k: ConfigKey) -> (r: Result<u64, ConfigError>)
    requires
        k.is_height(),
    ensures
        match r {
            Ok(h) => entry_fault(vars@, k) is None && Some(h) == u64_text_value(
                entry_text(vars@, k),
            ),
            Err(e) => entry_fault(vars@, k) == Some(e@),
        },
{
    let name = k.name();
    match lookup(vars, name) {
        None => Err(ConfigError::Missing { key: name.to_owned() }),
        Some(v) => match parse_u64_text(v.as_str()) {
            Some(h) => Ok(h),
            None => Err(ConfigError::Invalid { key: name.to_owned(), value: v }),
        },
    }
}

/// Loads the settings from the environment entries `vars` (name, value),
/// all or nothing: the first missing or unreadable entry, in field order, is
/// reported by name.
pub fn init_env_config(vars: &Vec<(String, String)>) -> (r: Result<Env, ConfigError>)
    ensures
        r is Ok <==> config_fault(vars@) is None,
        r matches Ok(e) ==> env_matches(vars@, e),
        r matches Err(e) ==> config_fault(vars@) == Some(e@),
{
    let start_block_height_from_cache = match flag_entry(vars, ConfigKey::StartBlockHeightFromCache) {
        Ok(b) => b,
        Err(e) => return Err(e),
    };
    let start_block_height = match height_entry(vars, ConfigKey::StartBlockHeight) {
        Ok(h) => h,
        Err(e) => return Err(e),
    };
    let redis_url = match text_entry(vars, ConfigKey::RedisUrl) {
        Ok(v) => v,
        Err(e) => return Err(e),
    };
    let pub_list = match text_entry(vars, ConfigKey::PubList) {
        Ok(v) => v,
        Err(e) => return Err(e),
    };
    let mcs = match text_entry(vars, ConfigKey::Mcs) {
        Ok(v) => v,
        Err(e) => return Err(e),
    };
    let test = match flag_entry(vars, ConfigKey::Test) {
        Ok(b) => b,
        Err(e) => return Err(e),
    };
    let log_file = match text_entry(vars, ConfigKey::LogFile) {
        Ok(v) => v,
        Err(e) => return Err(e),
    };
    let log_level = match text_entry(vars, ConfigKey::LogLevel) {
        Ok(v) => v,
        Err(e) => return Err(e),
    };
    Ok(
        Env {
            start_block_height_from_cache,
            start_block_height,
            redis_url,
            pub_list,
            mcs,
            test,
            log_file,
            log_level,
        },
    )
}

/// With exactly one entry missing and every other entry present and
/// readable, loading fails naming the missing entry.
pub proof fn lemma_missing_entry_is_named(vars: Seq<(String, String)>, missing: ConfigKey)
    requires
        env_lookup(vars, missing.spec_name()) is None,
        forall|k: ConfigKey| k != missing ==> (#[trigger] entry_fault(vars, k)) is None,
    ensures
        config_fault(vars) == Some(ConfigFault::Missing(missing.spec_name())),
{
    assert(entry_fault(vars, missing) == Some(ConfigFault::Missing(missing.spec_name())));
    assert(entry_fault(vars, ConfigKey::StartBlockHeightFromCache) is None || missing
        == ConfigKey::StartBlockHeightFromCache);
    assert(entry_fault(vars, ConfigKey::StartBlockHeight) is None || missing
        == ConfigKey::StartBlockHeight);
    assert(entry_fault(vars, ConfigKey::RedisUrl) is None || missing == ConfigKey::RedisUrl);
    assert(entry_fault(vars, ConfigKey::PubList) is None || missing == ConfigKey::PubList);
    assert(entry_fault(vars, ConfigKey::Mcs) is None || missing == ConfigKey::Mcs);
    assert(entry_fault(vars, ConfigKey::Test) is None || missing == ConfigKey::Test);
    assert(entry_fault(vars, ConfigKey::LogFile) is None || missing == ConfigKey::LogFile);
    assert(entry_fault(vars, ConfigKey::LogLevel) is None || missing == ConfigKey::LogLevel);
}

} // verus!
