//! Configuration of the provider and of one Telnet link.
//!
//! A link configuration is read out of a string-to-string map supplied by the
//! host. Every entry but the host name is optional and numeric; an absent or
//! unreadable entry falls back to its default.

use std::collections::HashMap;
use vstd::arithmetic::div_mod::lemma_fundamental_div_mod;
use vstd::prelude::*;
use vstd::string::StrSliceExecFns;
use vstd::string::StringExecFns;

verus! {

/// Port used when the configuration names none.
pub const DEFAULT_TELNET_PORT: u16 = 23;

/// Initial reconnect pause used when the configuration names none.
pub const DEFAULT_INITIAL_RECONNECT_DELAY_MS: u64 = 1000;

/// Largest reconnect pause used when the configuration names none.
pub const DEFAULT_MAX_RECONNECT_DELAY_MS: u64 = 60000;

/// Message size limit used when the configuration names none.
pub const DEFAULT_MAX_MESSAGE_SIZE: usize = 1048576;

/// A key with exactly these characters is present in the map.
pub open spec fn map_has_key(m: Map<String, String>, key: Seq<char>) -> bool {
    exists|k: String| #[trigger] m.contains_key(k) && k@ == key
}

/// The value the map stores under the key with these characters.
pub open spec fn map_value(m: Map<String, String>, key: Seq<char>) -> Seq<char> {
    m[choose|k: String| m.contains_key(k) && k@ == key]@
}

/// Relies on std's `HashMap::get`, looking a `&str` key up in a map with
/// `String` keys: it returns the value stored under the key that has exactly
/// these characters, and nothing when no key does. String's `Eq` and `Hash`
/// go by the characters, so a map never holds two keys that read the same.
#[verifier::external_body]
fn lookup<'a>(values: &'a HashMap<String, String>, key: &str) -> (r: Option<&'a String>)
    ensures
        match r {
            Some(v) => map_has_key(values@, key@) && v@ == map_value(values@, key@),
            None => !map_has_key(values@, key@),
        },
{
    values.get(key)
}

/// The character is a decimal digit.
pub open spec fn is_digit(c: char) -> bool {
    48 <= c as u32 && c as u32 <= 57
}

/// Every character of the sequence is a decimal digit.
pub open spec fn all_digits(s: Seq<char>) -> bool {
    forall|i: int| 0 <= i < s.len() ==> is_digit(#[trigger] s[i])
}

/// The number a digit sequence denotes, read as decimal.
pub open spec fn digits_value(s: Seq<char>) -> int
    decreases s.len(),
{
    if s.len() == 0 {
        0
    } else {
        10 * digits_value(s.drop_last()) + (s.last() as u32 - 48)
    }
}

/// The digits of a number's text, after an optional leading plus sign.
pub open spec fn numeric_body(s: Seq<char>) -> Seq<char> {
    if s.len() > 0 && s[0] == '+' {
        s.drop_first()
    } else {
        s
    }
}

/// What parsing the characters as a decimal number yields: the value, when
/// the text is an optional plus sign followed by one or more digits and the
/// value fits in a u64; nothing otherwise.
pub open spec fn spec_parse_u64(s: Seq<char>) -> Option<u64> {
    if numeric_body(s).len() > 0 && all_digits(numeric_body(s)) && digits_value(numeric_body(s))
        <= u64::MAX {
        Some(digits_value(numeric_body(s)) as u64)
    } else {
        None
    }
}

/// A digit sequence denotes a number that is not negative.
proof fn lemma_digits_value_nonneg(s: Seq<char>)
    requires
        all_digits(s),
    ensures
        digits_value(s) >= 0,
    decreases s.len(),
{
    if s.len() > 0 {
        assert(all_digits(s.drop_last()));
        lemma_digits_value_nonneg(s.drop_last());
    }
}

/// Extending a digit sequence never shrinks the number it denotes.
proof fn lemma_digits_value_prefix_le(s: Seq<char>, j: int)
    requires
        all_digits(s),
        0 <= j <= s.len(),
    ensures
        digits_value(s.subrange(0, j)) <= digits_value(s),
    decreases s.len() - j,
{
    if j == s.len() {
        assert(s.subrange(0, j) =~= s);
    } else {
        let p = s.subrange(0, j);
        let q = s.subrange(0, j + 1);
        assert(q.drop_last() =~= p);
        assert(q.last() == s[j]);
        assert(all_digits(p));
        lemma_digits_value_nonneg(p);
        assert(digits_value(q) >= digits_value(p));
        lemma_digits_value_prefix_le(s, j + 1);
    }
}

/// Parse the text as a decimal number: an optional plus sign followed by one
/// or more digits, rejected when anything else appears or the value does not
/// fit in a u64.
pub fn parse_u64(s: &str) -> (r: Option<u64>)
    ensures
        r == spec_parse_u64(s@),
{
    let n = s.unicode_len();
    if n == 0 {
        return None;
    }
    let first = s.get_char(0);
    let start: usize = if first == '+' {
        1
    } else {
        0
    };
    if start == n {
        return None;
    }
    let ghost body = numeric_body(s@);
    proof {
        assert(body =~= s@.subrange(start as int, n as int));
    }
    let mut acc: u64 = 0;
    let mut i: usize = start;
    while i < n
        invariant
            start <= i <= n,
            n == s@.len(),
            body == numeric_body(s@),
            body == s@.subrange(start as int, n as int),
            all_digits(body.subrange(0, i - start)),
            acc == digits_value(body.subrange(0, i - start)),
        decreases n - i,
    {
        let c = s.get_char(i);
        let cv = c as u32;
        proof {
            assert(body[i - start] == s@[i as int]);
        }
        if cv < 48 || cv > 57 {
            return None;
        }
        let d: u64 = (cv - 48) as u64;
        let limit: u64 = (u64::MAX - d) / 10;
        proof {
            lemma_fundamental_div_mod((u64::MAX - d) as int, 10);
            assert(body.subrange(0, i - start + 1).drop_last() =~= body.subrange(0, i - start));
            assert(body.subrange(0, i - start + 1).last() == body[i - start]);
        }
        if acc > limit {
            proof {
                if all_digits(body) {
                    lemma_digits_value_prefix_le(body, i - start + 1);
                }
            }
            return None;
        }
        acc = acc * 10 + d;
        i = i + 1;
    }
    proof {
        assert(body.subrange(0, (n - start) as int) =~= body);
    }
    Some(acc)
}

/// The value a numeric configuration entry contributes: the entry's text
/// parsed as a decimal number when it is present, readable and within
/// `bound`; `default` otherwise.
pub open spec fn numeric_entry(
    m: Map<String, String>,
    key: Seq<char>,
    bound: u64,
    default: u64,
) -> u64 {
    if map_has_key(m, key) {
        match spec_parse_u64(map_value(m, key)) {
            Some(v) => if v <= bound {
                v
            } else {
                default
            },
            None => default,
        }
    } else {
        default
    }
}

/// Look a numeric entry up and parse it, falling back to `default`.
fn numeric_value(values: &HashMap<String, String>, key: &str, bound: u64, default: u64) -> (r: u64)
    requires
        default <= bound,
    ensures
        r == numeric_entry(values@, key@, bound, default),
        r <= bound,
{
    match lookup(values, key) {
        Some(v) => match parse_u64(v.as_str()) {
            Some(n) => if n <= bound {
                n
            } else {
                default
            },
            None => default,
        },
        None => default,
    }
}

/// Why a link configuration could not be read.
#[derive(Clone, Copy, PartialEq, Eq, Structural, Debug)]
pub enum ConfigError {
    /// The required `telnet_host` entry is missing.
    MissingTelnetHost,
}

/// Everything one Telnet link needs: where to connect, how to retry, and how
/// large a delivered message may be.
#[derive(Clone, Debug)]
pub struct LinkConfig {
    /// Telnet server host to connect to.
    pub telnet_host: String,
    /// Telnet server port to connect to.
    pub telnet_port: u16,
    /// Reconnect attempts granted after a failure; zero means unlimited.
    pub max_reconnect_attempts: u32,
    /// First reconnect pause, in milliseconds.
    pub initial_reconnect_delay_ms: u64,
    /// Largest reconnect pause, in milliseconds.
    pub max_reconnect_delay_ms: u64,
    /// Largest filtered message that is delivered, in bytes.
    pub max_message_size: usize,
}

/// The decimal digit character for a value below ten.
pub open spec fn digit_char(d: int) -> char {
    if d == 0 {
        '0'
    } else if d == 1 {
        '1'
    } else if d == 2 {
        '2'
    } else if d == 3 {
        '3'
    } else if d == 4 {
        '4'
    } else if d == 5 {
        '5'
    } else if d == 6 {
        '6'
    } else if d == 7 {
        '7'
    } else if d == 8 {
        '8'
    } else {
        '9'
    }
}

/// The decimal text of a number, most significant digit first.
pub open spec fn dec_str(n: int) -> Seq<char>
    decreases n,
{
    if n < 10 {
        seq![digit_char(n)]
    } else {
        dec_str(n / 10).push(digit_char(n % 10))
    }
}

/// The single-character text of one digit.
fn digit_string(d: u16) -> (r: String)
    requires
        d < 10,
    ensures
        r@ == seq![digit_char(d as int)],
{
    let s: &str = if d == 0 {
        "0"
    } else if d == 1 {
        "1"
    } else if d == 2 {
        "2"
    } else if d == 3 {
        "3"
    } else if d == 4 {
        "4"
    } else if d == 5 {
        "5"
    } else if d == 6 {
        "6"
    } else if d == 7 {
        "7"
    } else if d == 8 {
        "8"
    } else {
        "9"
    };
    proof {
        reveal_strlit("0");
        reveal_strlit("1");
        reveal_strlit("2");
        reveal_strlit("3");
        reveal_strlit("4");
        reveal_strlit("5");
        reveal_strlit("6");
        reveal_strlit("7");
        reveal_strlit("8");
        reveal_strlit("9");
        assert(s@ =~= seq![digit_char(d as int)]);
    }
    String::from_str(s)
}

/// Render a port number as decimal text.
fn u16_to_string(n: u16) -> (r: String)
    ensures
        r@ == dec_str(n as int),
    decreases n,
{
    if n < 10 {
        digit_string(n)
    } else {
        let mut r = u16_to_string(n / 10);
        let d = digit_string(n % 10);
        r.append(d.as_str());
        proof {
            assert(dec_str(n as int) =~= dec_str(n as int / 10) + seq![digit_char(n as int % 10)]);
        }
        r
    }
}

impl LinkConfig {
    /// Read a link configuration out of the host-supplied string map. The
    /// host name is required; every other entry falls back to its default
    /// when it is absent, unreadable or out of range.
    pub fn from_values(config: &HashMap<String, String>) -> (r: Result<LinkConfig, ConfigError>)
        ensures
            r is Ok <==> map_has_key(config@, "telnet_host"@),
            r matches Ok(c) ==> {
                &&& c.telnet_host@ == map_value(config@, "telnet_host"@)
                &&& c.telnet_port == numeric_entry(
                    config@,
                    "telnet_port"@,
                    65535,
                    DEFAULT_TELNET_PORT as u64,
                ) as u16
                &&& c.max_reconnect_attempts == numeric_entry(
                    config@,
                    "max_reconnect_attempts"@,
                    u32::MAX as u64,
                    0,
                ) as u32
                &&& c.initial_reconnect_delay_ms == numeric_entry(
                    config@,
                    "initial_reconnect_delay_ms"@,
                    u64::MAX,
                    DEFAULT_INITIAL_RECONNECT_DELAY_MS,
                )
                &&& c.max_reconnect_delay_ms == numeric_entry(
                    config@,
                    "max_reconnect_delay_ms"@,
                    u64::MAX,
                    DEFAULT_MAX_RECONNECT_DELAY_MS,
                )
                &&& c.max_message_size == numeric_entry(
                    config@,
                    "max_message_size"@,
                    usize::MAX as u64,
                    DEFAULT_MAX_MESSAGE_SIZE as u64,
                ) as usize
            },
            r matches Err(e) ==> e == ConfigError::MissingTelnetHost,
    {
        let telnet_host = match lookup(config, "telnet_host") {
            Some(h) => h.clone(),
            None => {
                return Err(ConfigError::MissingTelnetHost);
            },
        };
        let telnet_port = numeric_value(
            config,
            "telnet_port",
            65535,
            DEFAULT_TELNET_PORT as u64,
        ) as u16;
        let max_reconnect_attempts = numeric_value(
            config,
            "max_reconnect_attempts",
            u32::MAX as u64,
            0,
        ) as u32;
        let initial_reconnect_delay_ms = numeric_value(
            config,
            "initial_reconnect_delay_ms",
            u64::MAX,
            DEFAULT_INITIAL_RECONNECT_DELAY_MS,
        );
        let max_reconnect_delay_ms = numeric_value(
            config,
            "max_reconnect_delay_ms",
            u64::MAX,
            DEFAULT_MAX_RECONNECT_DELAY_MS,
        );
        let max_message_size_64 = numeric_value(
            config,
            "max_message_size",
            usize::MAX as u64,
            DEFAULT_MAX_MESSAGE_SIZE as u64,
        );
        let max_message_size = max_message_size_64 as usize;
        Ok(
            LinkConfig {
                telnet_host,
                telnet_port,
                max_reconnect_attempts,
                initial_reconnect_delay_ms,
                max_reconnect_delay_ms,
                max_message_size,
            },
        )
    }

    /// The initial reconnect pause, in milliseconds.
    pub fn initial_reconnect_delay(&self) -> (ms: u64)
        ensures
            ms == self.initial_reconnect_delay_ms,
    {
        self.initial_reconnect_delay_ms
    }

    /// The largest reconnect pause, in milliseconds.
    pub fn max_reconnect_delay(&self) -> (ms: u64)
        ensures
            ms == self.max_reconnect_delay_ms,
    {
        self.max_reconnect_delay_ms
    }

    /// The host:port target, as one string.
    pub fn address(&self) -> (r: String)
        ensures
            r@ == self.telnet_host@ + ":"@ + dec_str(self.telnet_port as int),
    {
        let mut r = String::from_str(self.telnet_host.as_str());
        r.append(":");
        let p = u16_to_string(self.telnet_port);
        r.append(p.as_str());
        r
    }
}

/// The provider-wide configuration: the raw values the host hands over when
/// the provider starts.
#[derive(Clone, Debug)]
pub struct ProviderConfig {
    values: HashMap<String, String>,
}

impl ProviderConfig {
    /// The stored values.
    pub closed spec fn spec_values(&self) -> Map<String, String> {
        self.values@
    }

    /// Copy the host-supplied values into a configuration record.
    pub fn from_map(values: &HashMap<String, String>) -> (r: ProviderConfig)
        ensures
            r.spec_values() == values@,
    {
        ProviderConfig { values: values.clone() }
    }

    /// The stored values, for a caller that carries them onward.
    pub fn values(&self) -> (r: &HashMap<String, String>)
        ensures
            r@ == self.spec_values(),
    {
        &self.values
    }

    /// The value stored under the key, if any.
    pub fn value<'a>(&'a self, key: &str) -> (r: Option<&'a String>)
        ensures
            match r {
                Some(v) => map_has_key(self.spec_values(), key@) && v@ == map_value(
                    self.spec_values(),
                    key@,
                ),
                None => !map_has_key(self.spec_values(), key@),
            },
    {
        lookup(&self.values, key)
    }
}

impl Default for ProviderConfig {
    /// An empty configuration.
    fn default() -> (r: Self)
        ensures
            r.spec_values() == Map::<String, String>::empty(),
    {
        ProviderConfig { values: HashMap::new() }
    }
}

} // verus!
