use vstd::prelude::*;

use crate::command::{parses_to, words, SharedCommand};

verus! {

/// The value of a run of decimal digits.
pub open spec fn digits_value(s: Seq<char>) -> int
    decreases s.len(),
{
    if s.len() == 0 {
        0
    } else {
        digits_value(s.drop_last()) * 10 + (s.last() as int - '0' as int)
    }
}

pub open spec fn all_digits(s: Seq<char>) -> bool {
    forall|i: int| 0 <= i < s.len() ==> '0' <= #[trigger] s[i] <= '9'
}

/// The digits of a number written with an optional leading `+`.
pub open spec fn unsigned_digits(s: Seq<char>) -> Seq<char> {
    if s.len() > 0 && s[0] == '+' {
        s.drop_first()
    } else {
        s
    }
}

/// A decimal number that fits in 64 bits, as `u64::from_str` reads it.
pub open spec fn parse_u64_spec(s: Seq<char>) -> Option<u64> {
    let d = unsigned_digits(s);
    if d.len() > 0 && all_digits(d) && digits_value(d) <= u64::MAX {
        Some(digits_value(d) as u64)
    } else {
        None
    }
}

/// `true` or `false`, as `bool::from_str` reads them.
pub open spec fn parse_bool_spec(s: Seq<char>) -> Option<bool> {
    if s == "true"@ {
        Some(true)
    } else if s == "false"@ {
        Some(false)
    } else {
        None
    }
}

/// Reads a decimal number that fits in 64 bits.
pub fn parse_u64(s: &str) -> (r: Option<u64>)
    ensures
        r == parse_u64_spec(s@),
{
    let n = s.unicode_len();
    let mut i: usize = 0;
    if n > 0 && s.get_char(0) == '+' {
        i = 1;
    }
    let ghost d = unsigned_digits(s@);
    let ghost skip = i as int;
    assert(d =~= s@.subrange(skip, n as int));
    if i == n {
        return None;
    }
    let mut acc: u64 = 0;
    let mut overflow = false;
    let ghost mut value: int = 0;
    while i < n
        invariant
            n == s@.len(),
            d == s@.subrange(skip, n as int),
            d == unsigned_digits(s@),
            0 <= skip <= i <= n,
            all_digits(s@.subrange(skip, i as int)),
            value == digits_value(s@.subrange(skip, i as int)),
            value >= 0,
            !overflow ==> acc as int == value,
            overflow ==> value > u64::MAX,
        decreases n - i,
    {
        let c = s.get_char(i);
        if c < '0' || c > '9' {
            proof {
                let k = i - skip;
                assert(d[k] == c);
                assert(!('0' <= d[k] <= '9'));
                assert(!all_digits(d));
                assert(unsigned_digits(s@) == d);
                assert(parse_u64_spec(s@) is None);
            }
            return None;
        }
        let digit = (c as u32 - '0' as u32) as u64;
        proof {
            let next = s@.subrange(skip, i + 1);
            assert(next.drop_last() =~= s@.subrange(skip, i as int));
            assert(next.last() == c);
            value = value * 10 + digit as int;
            assert(value == digits_value(next));
        }
        if !overflow {
            if acc > (u64::MAX - digit) / 10 {
                overflow = true;
            } else {
                acc = acc * 10 + digit;
            }
        }
        i = i + 1;
    }
    if overflow {
        None
    } else {
        Some(acc)
    }
}

/// Reads `true` or `false`.
pub fn parse_bool(s: &str) -> (r: Option<bool>)
    ensures
        r == parse_bool_spec(s@),
{
    proof {
        reveal_strlit("true");
        reveal_strlit("false");
    }
    let n = s.unicode_len();
    if n == 4 && s.get_char(0) == 't' && s.get_char(1) == 'r' && s.get_char(2) == 'u' && s.get_char(3) == 'e' {
        assert(s@ =~= "true"@);
        Some(true)
    } else if n == 5 && s.get_char(0) == 'f' && s.get_char(1) == 'a' && s.get_char(2) == 'l'
        && s.get_char(3) == 's' && s.get_char(4) == 'e' {
        assert(s@ =~= "false"@);
        Some(false)
    } else {
        assert(s@ != "true"@ && s@ != "false"@ ) by {
            if s@ == "true"@ {
                assert(s@[0] == 't' && s@[1] == 'r' && s@[2] == 'u' && s@[3] == 'e');
            }
            if s@ == "false"@ {
                assert(s@[0] == 'f' && s@[1] == 'a' && s@[2] == 'l' && s@[3] == 's' && s@[4] == 'e');
            }
        }
        None
    }
}


/// The settings that the scanner cannot run without; the retry limit only
/// where reports go to a URL.
#[derive(Clone, Copy, Debug, PartialEq, Eq, Structural)]
pub enum OptionKey {
    MacAddrTimeout,
    ArpScanPeriod,
    MacCacheLogPeriod,
    Trace,
    ReconnectCmd,
    ApiRetryLimit,
}

impl OptionKey {
    /// The name under which the setting is looked up.
    pub fn env_name(&self) -> (r: String)
        ensures
            r@ == match *self {
                OptionKey::MacAddrTimeout => "MAC_ADDR_TIMEOUT_SECS"@,
                OptionKey::ArpScanPeriod => "ARP_SCAN_PERIOD_SECS"@,
                OptionKey::MacCacheLogPeriod => "MAC_CACHE_LOG_PERIOD_SECS"@,
                OptionKey::Trace => "TRACE"@,
                OptionKey::ReconnectCmd => "RECONNECT_CMD"@,
                OptionKey::ApiRetryLimit => "API_RETRY_LIMIT"@,
            },
    {
        match self {
            OptionKey::MacAddrTimeout => "MAC_ADDR_TIMEOUT_SECS".to_owned(),
            OptionKey::ArpScanPeriod => "ARP_SCAN_PERIOD_SECS".to_owned(),
            OptionKey::MacCacheLogPeriod => "MAC_CACHE_LOG_PERIOD_SECS".to_owned(),
            OptionKey::Trace => "TRACE".to_owned(),
            OptionKey::ReconnectCmd => "RECONNECT_CMD".to_owned(),
            OptionKey::ApiRetryLimit => "API_RETRY_LIMIT".to_owned(),
        }
    }
}

/// Why the settings cannot be used.
#[derive(Clone, Copy, Debug, PartialEq, Eq, Structural)]
pub enum ConfigErr {
    /// A required setting is absent.
    Missing(OptionKey),
    /// A required setting does not read as its type.
    Invalid(OptionKey),
}

/// The settings as looked up, each absent or as written.
#[derive(Debug)]
pub struct RawOptions {
    pub mac_addr_timeout: Option<String>,
    pub arp_scan_period: Option<String>,
    pub mac_cache_log_period: Option<String>,
    pub trace: Option<String>,
    pub reconnect_cmd: Option<String>,
    pub log_api_url: Option<String>,
    pub api_retry_limit: Option<String>,
    pub api_key: Option<String>,
    pub location: Option<String>,
}

/// The scanner's settings, fixed for the whole run.
#[derive(Debug)]
pub struct ScannerOptions {
    /// Time until mac address is considered expired, in seconds
    pub mac_addr_timeout: u64,
    /// Interval that ARP requests are sent, in seconds
    pub arp_scan_period: u64,
    /// Interval at which mac cache size is logged, in seconds
    pub mac_cache_log_period: u64,
    /// Whether to log 'trace' level information
    pub trace: bool,
    /// Command or script to force network reconnect
    pub reconnect_cmd: SharedCommand,
    /// URL to send reports to; without it reports go to the local log
    pub log_api_url: Option<String>,
    /// Attempts per report sent to the URL
    pub api_retry_limit: Option<u64>,
    /// Value of the `x-api-key` header
    pub api_key: Option<String>,
    /// Scanner location, `dev-location` where none is set
    pub location: String,
}

pub open spec fn number_err(v: Option<String>, key: OptionKey) -> Option<ConfigErr> {
    match v {
        None => Some(ConfigErr::Missing(key)),
        Some(s) => if parse_u64_spec(s@) is Some {
            None
        } else {
            Some(ConfigErr::Invalid(key))
        },
    }
}

pub open spec fn flag_err(v: Option<String>, key: OptionKey) -> Option<ConfigErr> {
    match v {
        None => Some(ConfigErr::Missing(key)),
        Some(s) => if parse_bool_spec(s@) is Some {
            None
        } else {
            Some(ConfigErr::Invalid(key))
        },
    }
}

/// The first required setting, in the order of `ScannerOptions`, that is
/// absent or unreadable. A command without a word is unreadable; the retry
/// limit is required where a URL is given.
pub open spec fn config_error(raw: RawOptions) -> Option<ConfigErr> {
    if number_err(raw.mac_addr_timeout, OptionKey::MacAddrTimeout) is Some {
        number_err(raw.mac_addr_timeout, OptionKey::MacAddrTimeout)
    } else if number_err(raw.arp_scan_period, OptionKey::ArpScanPeriod) is Some {
        number_err(raw.arp_scan_period, OptionKey::ArpScanPeriod)
    } else if number_err(raw.mac_cache_log_period, OptionKey::MacCacheLogPeriod) is Some {
        number_err(raw.mac_cache_log_period, OptionKey::MacCacheLogPeriod)
    } else if flag_err(raw.trace, OptionKey::Trace) is Some {
        flag_err(raw.trace, OptionKey::Trace)
    } else if raw.reconnect_cmd is None {
        Some(ConfigErr::Missing(OptionKey::ReconnectCmd))
    } else if words(raw.reconnect_cmd->0@).len() == 0 {
        Some(ConfigErr::Invalid(OptionKey::ReconnectCmd))
    } else if raw.log_api_url is Some && number_err(raw.api_retry_limit, OptionKey::ApiRetryLimit) is Some {
        number_err(raw.api_retry_limit, OptionKey::ApiRetryLimit)
    } else {
        None
    }
}

/// An optional number: absent where it is absent or unreadable. Without a
/// URL the retry limit is not required, and an unreadable one counts as none.
pub open spec fn optional_number(v: Option<String>) -> Option<u64> {
    match v {
        Some(s) => parse_u64_spec(s@),
        None => None,
    }
}

/// Whether `o` holds the settings that `raw` gives.
pub open spec fn options_from(raw: RawOptions, o: ScannerOptions) -> bool {
    &&& o.mac_addr_timeout == parse_u64_spec(raw.mac_addr_timeout->0@)->0
    &&& o.arp_scan_period == parse_u64_spec(raw.arp_scan_period->0@)->0
    &&& o.mac_cache_log_period == parse_u64_spec(raw.mac_cache_log_period->0@)->0
    &&& o.trace == parse_bool_spec(raw.trace->0@)->0
    &&& parses_to(raw.reconnect_cmd->0@, o.reconnect_cmd)
    &&& o.log_api_url == raw.log_api_url
    &&& o.api_retry_limit == optional_number(raw.api_retry_limit)
    &&& o.api_key == raw.api_key
    &&& o.location@ == match raw.location {
        Some(l) => l@,
        None => "dev-location"@,
    }
}

fn required_number(v: &Option<String>, key: OptionKey) -> (r: Result<u64, ConfigErr>)
    ensures
        match r {
            Ok(n) => number_err(*v, key) is None && parse_u64_spec(v->0@) == Some(n),
            Err(e) => number_err(*v, key) == Some(e),
        },
{
    match v {
        None => Err(ConfigErr::Missing(key)),
        Some(s) => match parse_u64(s.as_str()) {
            Some(n) => Ok(n),
            None => Err(ConfigErr::Invalid(key)),
        },
    }
}

/// Reads the settings from the values looked up for them. Fails on the
/// first required setting that is absent or unreadable.
pub fn load_scanner_opts(raw: RawOptions) -> (r: Result<ScannerOptions, ConfigErr>)
    ensures
        match r {
            Ok(o) => config_error(raw) is None && options_from(raw, o),
            Err(e) => config_error(raw) == Some(e),
        },
{
    let ghost given = raw;
    let mac_addr_timeout = match required_number(&raw.mac_addr_timeout, OptionKey::MacAddrTimeout) {
        Ok(n) => n,
        Err(e) => return Err(e),
    };
    let arp_scan_period = match required_number(&raw.arp_scan_period, OptionKey::ArpScanPeriod) {
        Ok(n) => n,
        Err(e) => return Err(e),
    };
    let mac_cache_log_period = match required_number(&raw.mac_cache_log_period, OptionKey::MacCacheLogPeriod) {
        Ok(n) => n,
        Err(e) => return Err(e),
    };
    let trace = match &raw.trace {
        None => return Err(ConfigErr::Missing(OptionKey::Trace)),
        Some(s) => match parse_bool(s.as_str()) {
            Some(b) => b,
            None => return Err(ConfigErr::Invalid(OptionKey::Trace)),
        },
    };
    let reconnect_cmd = match &raw.reconnect_cmd {
        None => return Err(ConfigErr::Missing(OptionKey::ReconnectCmd)),
        Some(c) => match SharedCommand::parse(c.as_str()) {
            Some(cmd) => cmd,
            None => return Err(ConfigErr::Invalid(OptionKey::ReconnectCmd)),
        },
    };
    let api_retry_limit = if raw.log_api_url.is_some() {
        match required_number(&raw.api_retry_limit, OptionKey::ApiRetryLimit) {
            Ok(n) => Some(n),
            Err(e) => return Err(e),
        }
    } else {
        match &raw.api_retry_limit {
            Some(s) => parse_u64(s.as_str()),
            None => None,
        }
    };
    let location = match raw.location {
        Some(l) => l,
        None => "dev-location".to_owned(),
    };
    let o = ScannerOptions {
        mac_addr_timeout,
        arp_scan_period,
        mac_cache_log_period,
        trace,
        reconnect_cmd,
        log_api_url: raw.log_api_url,
        api_retry_limit,
        api_key: raw.api_key,
        location,
    };
    assert(options_from(given, o));
    Ok(o)
}

} // verus!
