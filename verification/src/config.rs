//! Configuration parsing for the four appender kinds.
//!
//! A configuration arrives as a map of settings — in a deployment it is
//! read from a configuration file by an outside deserializer and handed in
//! as a `ConfigValue`. Each creator checks the fields its destination
//! needs and returns either a complete, validated configuration or the
//! first configuration error it finds, with the same message the operator
//! would expect: a missing required field and a field of the wrong type
//! are told apart.

use vstd::prelude::*;

use crate::appender::ConsoleConfig;

verus! {

/// One settings entry: a key and its value.
#[derive(Debug)]
pub struct ConfigEntry {
    /// The setting's name.
    pub key: String,
    /// The setting's value.
    pub value: ConfigValue,
}

/// A configuration value: the shapes the creators can make use of, and
/// `Other` for any value of another shape (a number, a list, a nested
/// structure under a key that wants none).
#[derive(Debug)]
pub enum ConfigValue {
    /// A text value.
    Text(String),
    /// A boolean value.
    Flag(bool),
    /// A table of settings, in the order the source gave them.
    Table(Vec<ConfigEntry>),
    /// Any value of another shape.
    Other,
}

/// A configuration error, with the message shown to the operator.
#[derive(Debug)]
pub struct ConfigError {
    /// What was wrong.
    pub msg: String,
}

impl ConfigError {
    /// The error's message.
    pub fn description(&self) -> (r: &str)
        ensures
            r@ == self.msg@,
    {
        self.msg.as_str()
    }
}

fn config_error(m: &str) -> (r: ConfigError)
    ensures
        r.msg@ == m@,
{
    ConfigError { msg: String::from_str(m) }
}

/// The value under `key`, at its first occurrence.
pub open spec fn lookup_spec(entries: Seq<ConfigEntry>, key: Seq<char>) -> Option<ConfigValue>
    decreases entries.len(),
{
    if entries.len() == 0 {
        None
    } else if entries[0].key@ == key {
        Some(entries[0].value)
    } else {
        lookup_spec(entries.drop_first(), key)
    }
}

fn lookup_from<'a>(entries: &'a Vec<ConfigEntry>, i: usize, key: &String) -> (r: Option<
    &'a ConfigValue,
>)
    requires
        i <= entries.len(),
    ensures
        match r {
            Some(v) => lookup_spec(entries@.subrange(i as int, entries@.len() as int), key@)
                == Some(*v),
            None => lookup_spec(entries@.subrange(i as int, entries@.len() as int), key@) is None,
        },
    decreases entries.len() - i,
{
    if i >= entries.len() {
        proof {
            assert(entries@.subrange(i as int, entries@.len() as int) =~= Seq::empty());
        }
        None
    } else {
        let e = &entries[i];
        proof {
            assert(entries@.subrange(i as int, entries@.len() as int)[0] == entries@[i as int]);
            assert(entries@.subrange(i as int, entries@.len() as int).drop_first()
                =~= entries@.subrange(i + 1, entries@.len() as int));
        }
        if e.key == *key {
            Some(&e.value)
        } else {
            lookup_from(entries, i + 1, key)
        }
    }
}

/// Finds the value under `key`, at its first occurrence.
pub fn lookup<'a>(entries: &'a Vec<ConfigEntry>, key: &String) -> (r: Option<&'a ConfigValue>)
    ensures
        match r {
            Some(v) => lookup_spec(entries@, key@) == Some(*v),
            None => lookup_spec(entries@, key@) is None,
        },
{
    proof {
        assert(entries@.subrange(0, entries@.len() as int) =~= entries@);
    }
    lookup_from(entries, 0, key)
}

/// The pattern a configuration asks for: a pattern string of its own, or
/// the encoder's default.
#[derive(Debug)]
pub enum PatternChoice {
    /// An explicit pattern string.
    Pattern(String),
    /// The encoder's default pattern.
    DefaultPattern,
}

/// The decimal digit characters of `n`.
pub open spec fn dec_digits(n: nat) -> Seq<char>
    decreases n,
{
    if n < 10 {
        seq![digit_char(n)]
    } else {
        dec_digits(n / 10).push(digit_char(n % 10))
    }
}

/// The character of one decimal digit.
pub open spec fn digit_char(d: nat) -> char {
    if d == 0 {
        '0'
    } else if d == 1 {
        '1'
    } else if d == 2 {
        '2'
    } else if d == 3 {
        '3'
    } else if d == 4 {
        '4'
    } else if d == 5 {
        '5'
    } else if d == 6 {
        '6'
    } else if d == 7 {
        '7'
    } else if d == 8 {
        '8'
    } else {
        '9'
    }
}

fn digit_str(d: u64) -> (r: &'static str)
    requires
        d < 10,
    ensures
        r@ == seq![digit_char(d as nat)],
{
    if d == 0 {
        proof {
            reveal_strlit("0");
            assert("0"@ =~= seq![digit_char(0)]);
        }
        "0"
    } else if d == 1 {
        proof {
            reveal_strlit("1");
            assert("1"@ =~= seq![digit_char(1)]);
        }
        "1"
    } else if d == 2 {
        proof {
            reveal_strlit("2");
            assert("2"@ =~= seq![digit_char(2)]);
        }
        "2"
    } else if d == 3 {
        proof {
            reveal_strlit("3");
            assert("3"@ =~= seq![digit_char(3)]);
        }
        "3"
    } else if d == 4 {
        proof {
            reveal_strlit("4");
            assert("4"@ =~= seq![digit_char(4)]);
        }
        "4"
    } else if d == 5 {
        proof {
            reveal_strlit("5");
            assert("5"@ =~= seq![digit_char(5)]);
        }
        "5"
    } else if d == 6 {
        proof {
            reveal_strlit("6");
            assert("6"@ =~= seq![digit_char(6)]);
        }
        "6"
    } else if d == 7 {
        proof {
            reveal_strlit("7");
            assert("7"@ =~= seq![digit_char(7)]);
        }
        "7"
    } else if d == 8 {
        proof {
            reveal_strlit("8");
            assert("8"@ =~= seq![digit_char(8)]);
        }
        "8"
    } else {
        proof {
            reveal_strlit("9");
            assert("9"@ =~= seq![digit_char(d as nat)]);
        }
        "9"
    }
}

fn push_u64_dec(out: &mut String, n: u64)
    ensures
        final(out)@ == old(out)@ + dec_digits(n as nat),
    decreases n,
{
    if n >= 10 {
        push_u64_dec(out, n / 10);
        let d = digit_str(n % 10);
        out.append(d);
        proof {
            assert(old(out)@ + dec_digits((n as nat) / 10) + seq![digit_char((n as nat) % 10)]
                =~= old(out)@ + dec_digits(n as nat));
        }
    } else {
        let d = digit_str(n);
        out.append(d);
    }
}

/// The JSON pattern string made for a unique worker id: every record field
/// quoted into one JSON object, the id embedded in decimal.
pub open spec fn json_pattern_spec(unique_id: u64) -> Seq<char> {
    "{{\"id\":\""@ + dec_digits(unique_id as nat)
        + "\",\"level\":\"{l}\",\"time\":\"{d}\",\"thread\":\"{T}\",\"module\":\"{M}\",\"file\":\"{f}\",\"line\":\"{L}\",\"msg\":\"{m}\"}}"@
}

/// Builds the JSON pattern string that embeds `unique_id`, so records from
/// different processes can be told apart by a shared consumer.
pub fn make_json_pattern(unique_id: u64) -> (r: String)
    ensures
        r@ == json_pattern_spec(unique_id),
{
    let mut s = String::from_str("{{\"id\":\"");
    push_u64_dec(&mut s, unique_id);
    s.append(
        "\",\"level\":\"{l}\",\"time\":\"{d}\",\"thread\":\"{T}\",\"module\":\"{M}\",\"file\":\"{f}\",\"line\":\"{L}\",\"msg\":\"{m}\"}}",
    );
    s
}

/// Relies on rand::random: some value of the type; nothing more is assumed
/// of it.
#[verifier::external_body]
fn random_u64() -> u64 {
    rand::random()
}

/// The pattern choice a well-typed configuration yields: an explicit
/// `pattern` setting is taken as given; without one, a message-connection
/// destination gets the JSON pattern under some unique id, every other
/// destination the encoder's default.
pub open spec fn pattern_ok(
    entries: Seq<ConfigEntry>,
    is_websocket: bool,
    choice: PatternChoice,
) -> bool {
    match lookup_spec(entries, "pattern"@) {
        Some(ConfigValue::Text(p)) => choice matches PatternChoice::Pattern(s) && s@ == p@,
        Some(_) => false,
        None => if is_websocket {
            choice matches PatternChoice::Pattern(s) && exists|id: u64| s@ == json_pattern_spec(id)
        } else {
            choice is DefaultPattern
        },
    }
}

/// True when the `pattern` setting is there but is not text.
pub open spec fn pattern_err(entries: Seq<ConfigEntry>) -> bool {
    lookup_spec(entries, "pattern"@) matches Some(v) && !(v is Text)
}

/// Reads the optional `pattern` setting: its text if given, an error if it
/// is not text, and otherwise the destination's default choice.
pub fn parse_pattern(entries: &Vec<ConfigEntry>, is_websocket: bool) -> (r: Result<
    PatternChoice,
    ConfigError,
>)
    ensures
        match r {
            Ok(choice) => pattern_ok(entries@, is_websocket, choice),
            Err(e) => pattern_err(entries@) && e.msg@ == "`pattern` must be a string"@,
        },
{
    match lookup(entries, &String::from_str("pattern")) {
        Some(ConfigValue::Text(p)) => Ok(PatternChoice::Pattern(p.clone())),
        Some(_) => Err(config_error("`pattern` must be a string")),
        None => {
            if is_websocket {
                Ok(PatternChoice::Pattern(make_json_pattern(random_u64())))
            } else {
                Ok(PatternChoice::DefaultPattern)
            }
        },
    }
}

/// A validated console appender configuration.
#[derive(Debug)]
pub struct ConsoleAppenderConfig {
    /// The console itself needs no settings.
    pub console: ConsoleConfig,
    /// The encoder pattern to use.
    pub pattern: PatternChoice,
}

/// A validated file appender configuration.
#[derive(Debug)]
pub struct FileAppenderConfig {
    /// The file to open.
    pub path: String,
    /// Append to what the file holds, rather than truncating it.
    pub append: bool,
    /// The encoder pattern to use.
    pub pattern: PatternChoice,
}

/// A validated stream-socket appender configuration.
#[derive(Debug)]
pub struct ServerAppenderConfig {
    /// The server's address.
    pub addr: String,
    /// Transmit each write immediately rather than buffering it.
    pub no_delay: bool,
    /// The encoder pattern to use.
    pub pattern: PatternChoice,
}

/// A validated message-connection appender configuration.
#[derive(Debug)]
pub struct WebSockAppenderConfig {
    /// The server's URL.
    pub url: String,
    /// The encoder pattern to use.
    pub pattern: PatternChoice,
}

/// The error a console configuration yields, if any.
pub open spec fn console_err(config: ConfigValue, msg: Seq<char>) -> bool {
    match config {
        ConfigValue::Table(entries) => pattern_err(entries@) && msg == "`pattern` must be a string"@,
        _ => msg == "config must be a map"@,
    }
}

/// Builds console appender configurations from a settings map.
pub struct AsyncConsoleAppenderCreator;

impl AsyncConsoleAppenderCreator {
    /// Validates a console configuration: any map with at most an optional
    /// `pattern` text setting.
    pub fn deserialize(&self, config: ConfigValue) -> (r: Result<
        ConsoleAppenderConfig,
        ConfigError,
    >)
        ensures
            match r {
                Ok(c) => config matches ConfigValue::Table(entries) && pattern_ok(
                    entries@,
                    false,
                    c.pattern,
                ),
                Err(e) => console_err(config, e.msg@),
            },
    {
        let entries = match config {
            ConfigValue::Table(entries) => entries,
            _ => {
                return Err(config_error("config must be a map"));
            },
        };
        match parse_pattern(&entries, false) {
            Ok(p) => Ok(ConsoleAppenderConfig { console: ConsoleConfig, pattern: p }),
            Err(e) => Err(e),
        }
    }
}

/// The error a file configuration yields, if any: the first of a
/// non-map configuration, a missing or non-text `path`, a non-boolean
/// `append`, a non-text `pattern`.
pub open spec fn file_err(config: ConfigValue, msg: Seq<char>) -> bool {
    match config {
        ConfigValue::Table(entries) => match lookup_spec(entries@, "path"@) {
            None => msg == "`path` is required"@,
            Some(ConfigValue::Text(_)) => {
                if lookup_spec(entries@, "append"@) matches Some(v) && !(v is Flag) {
                    msg == "`append` must be a bool"@
                } else {
                    pattern_err(entries@) && msg == "`pattern` must be a string"@
                }
            },
            Some(_) => msg == "`path` must be a string"@,
        },
        _ => msg == "config must be a map"@,
    }
}

/// Builds file appender configurations from a settings map.
pub struct AsyncFileAppenderCreator;

impl AsyncFileAppenderCreator {
    /// Validates a file configuration: a required `path` text setting, an
    /// optional `append` flag (on by default), an optional `pattern` text
    /// setting.
    pub fn deserialize(&self, config: ConfigValue) -> (r: Result<FileAppenderConfig, ConfigError>)
        ensures
            match r {
                Ok(c) => config matches ConfigValue::Table(entries) && {
                    &&& lookup_spec(entries@, "path"@) matches Some(ConfigValue::Text(p))
                        && c.path@ == p@
                    &&& match lookup_spec(entries@, "append"@) {
                        None => c.append == true,
                        Some(ConfigValue::Flag(b)) => c.append == b,
                        Some(_) => false,
                    }
                    &&& pattern_ok(entries@, false, c.pattern)
                },
                Err(e) => file_err(config, e.msg@),
            },
    {
        let entries = match config {
            ConfigValue::Table(entries) => entries,
            _ => {
                return Err(config_error("config must be a map"));
            },
        };
        let path = match lookup(&entries, &String::from_str("path")) {
            Some(ConfigValue::Text(p)) => p.clone(),
            Some(_) => {
                return Err(config_error("`path` must be a string"));
            },
            None => {
                return Err(config_error("`path` is required"));
            },
        };
        let append = match lookup(&entries, &String::from_str("append")) {
            Some(ConfigValue::Flag(b)) => *b,
            Some(_) => {
                return Err(config_error("`append` must be a bool"));
            },
            None => true,
        };
        match parse_pattern(&entries, false) {
            Ok(p) => Ok(FileAppenderConfig { path, append, pattern: p }),
            Err(e) => Err(e),
        }
    }
}

/// The error a stream-socket configuration yields, if any: the first of a
/// non-map configuration, a missing or non-text `server_addr`, a
/// non-boolean `no_delay`, a non-text `pattern`.
pub open spec fn server_err(config: ConfigValue, msg: Seq<char>) -> bool {
    match config {
        ConfigValue::Table(entries) => match lookup_spec(entries@, "server_addr"@) {
            None => msg == "`server_addr` is required"@,
            Some(ConfigValue::Text(_)) => {
                if lookup_spec(entries@, "no_delay"@) matches Some(v) && !(v is Flag) {
                    msg == "`no_delay` must be a boolean"@
                } else {
                    pattern_err(entries@) && msg == "`pattern` must be a string"@
                }
            },
            Some(_) => msg == "`server_addr` must be a string"@,
        },
        _ => msg == "config must be a map"@,
    }
}

/// Builds stream-socket appender configurations from a settings map.
pub struct AsyncServerAppenderCreator;

impl AsyncServerAppenderCreator {
    /// Validates a socket configuration: a required `server_addr` text
    /// setting, an optional `no_delay` flag (on by default), an optional
    /// `pattern` text setting. Whether the address names a reachable
    /// server is the connecting step's affair.
    pub fn deserialize(&self, config: ConfigValue) -> (r: Result<ServerAppenderConfig, ConfigError>)
        ensures
            match r {
                Ok(c) => config matches ConfigValue::Table(entries) && {
                    &&& lookup_spec(entries@, "server_addr"@) matches Some(ConfigValue::Text(a))
                        && c.addr@ == a@
                    &&& match lookup_spec(entries@, "no_delay"@) {
                        None => c.no_delay == true,
                        Some(ConfigValue::Flag(b)) => c.no_delay == b,
                        Some(_) => false,
                    }
                    &&& pattern_ok(entries@, false, c.pattern)
                },
                Err(e) => server_err(config, e.msg@),
            },
    {
        let entries = match config {
            ConfigValue::Table(entries) => entries,
            _ => {
                return Err(config_error("config must be a map"));
            },
        };
        let addr = match lookup(&entries, &String::from_str("server_addr")) {
            Some(ConfigValue::Text(a)) => a.clone(),
            Some(_) => {
                return Err(config_error("`server_addr` must be a string"));
            },
            None => {
                return Err(config_error("`server_addr` is required"));
            },
        };
        let no_delay = match lookup(&entries, &String::from_str("no_delay")) {
            Some(ConfigValue::Flag(b)) => *b,
            Some(_) => {
                return Err(config_error("`no_delay` must be a boolean"));
            },
            None => true,
        };
        match parse_pattern(&entries, false) {
            Ok(p) => Ok(ServerAppenderConfig { addr, no_delay, pattern: p }),
            Err(e) => Err(e),
        }
    }
}

/// The error a message-connection configuration yields, if any: the first
/// of a non-map configuration, a missing or non-text `server_url`, a
/// non-text `pattern`.
pub open spec fn websock_err(config: ConfigValue, msg: Seq<char>) -> bool {
    match config {
        ConfigValue::Table(entries) => match lookup_spec(entries@, "server_url"@) {
            None => msg == "`server_url` is required"@,
            Some(ConfigValue::Text(_)) => pattern_err(entries@) && msg
                == "`pattern` must be a string"@,
            Some(_) => msg == "`server_url` must be a string"@,
        },
        _ => msg == "config must be a map"@,
    }
}

/// Builds message-connection appender configurations from a settings map.
pub struct AsyncWebSockAppenderCreator;

impl AsyncWebSockAppenderCreator {
    /// Validates a message-connection configuration: a required
    /// `server_url` text setting and an optional `pattern` text setting;
    /// without one, the JSON pattern under a fresh unique id is chosen.
    pub fn deserialize(&self, config: ConfigValue) -> (r: Result<
        WebSockAppenderConfig,
        ConfigError,
    >)
        ensures
            match r {
                Ok(c) => config matches ConfigValue::Table(entries) && {
                    &&& lookup_spec(entries@, "server_url"@) matches Some(ConfigValue::Text(u))
                        && c.url@ == u@
                    &&& pattern_ok(entries@, true, c.pattern)
                },
                Err(e) => websock_err(config, e.msg@),
            },
    {
        let entries = match config {
            ConfigValue::Table(entries) => entries,
            _ => {
                return Err(config_error("config must be a map"));
            },
        };
        let url = match lookup(&entries, &String::from_str("server_url")) {
            Some(ConfigValue::Text(u)) => u.clone(),
            Some(_) => {
                return Err(config_error("`server_url` must be a string"));
            },
            None => {
                return Err(config_error("`server_url` is required"));
            },
        };
        match parse_pattern(&entries, true) {
            Ok(p) => Ok(WebSockAppenderConfig { url, pattern: p }),
            Err(e) => Err(e),
        }
    }
}

} // verus!
