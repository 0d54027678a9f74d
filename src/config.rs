use vstd::prelude::*;

verus! {

pub const DEFAULT_MAX_RESULTS: usize = 10;
pub const DEFAULT_TIMEOUT_SECS: u64 = 10;
pub const DEFAULT_CACHE_TTL_SECS: u64 = 300;
pub const DEFAULT_RATE_LIMIT_MS: u64 = 1000;
pub const DEFAULT_MAX_RETRIES: u32 = 3;

/// Whether `c` is an ASCII decimal digit.
pub open spec fn is_digit(c: char) -> bool {
    48 <= c as u32 <= 57
}

/// The value of a string of decimal digits.
pub open spec fn digits_value(s: Seq<char>) -> nat
    decreases s.len(),
{
    if s.len() == 0 {
        0
    } else {
        digits_value(s.drop_last()) * 10 + (s.last() as u32 - 48) as nat
    }
}

/// The value written in `s` as an optional `+` followed by one or more decimal digits, if `s`
/// has that form.
pub open spec fn decimal_value(s: Seq<char>) -> Option<nat> {
    let d = if s.len() > 0 && s[0] == '+' {
        s.drop_first()
    } else {
        s
    };
    if d.len() > 0 && forall|i: int| 0 <= i < d.len() ==> is_digit(#[trigger] d[i]) {
        Some(digits_value(d))
    } else {
        None
    }
}

/// The value a setting takes: what `s` holds when it is a decimal number no larger than `max`,
/// else `default`.
pub open spec fn setting_value(s: Option<Seq<char>>, default: nat, max: nat) -> nat {
    match s {
        Some(t) => match decimal_value(t) {
            Some(v) => if v <= max {
                v
            } else {
                default
            },
            None => default,
        },
        None => default,
    }
}

/// Relies on `str::parse::<u64>`: an optional `+` and then decimal digits whose value fits in a
/// `u64`; anything else is an error.
#[verifier::external_body]
fn parse_u64(s: &str) -> (r: Option<u64>)
    ensures
        r == match decimal_value(s@) {
            Some(v) => if v <= u64::MAX {
                Some(v as u64)
            } else {
                None
            },
            None => None,
        },
{
    s.parse::<u64>().ok()
}

/// The value of a numeric setting, or `default` when it is absent, malformed or above `max`.
fn setting(s: Option<&str>, default: u64, max: u64) -> (r: u64)
    requires
        default <= max,
    ensures
        r == setting_value(opt_view(s), default as nat, max as nat),
{
    match s {
        Some(t) => match parse_u64(t) {
            Some(v) => if v <= max {
                v
            } else {
                default
            },
            None => default,
        },
        None => default,
    }
}

/// The view of an optional setting.
pub open spec fn opt_view(s: Option<&str>) -> Option<Seq<char>> {
    match s {
        Some(t) => Some(t@),
        None => None,
    }
}

/// The settings of the tool surface.
#[derive(Debug, Clone)]
pub struct Config {
    pub max_results: usize,
    pub timeout_secs: u64,
    pub user_agent: String,
    pub cache_ttl_secs: u64,
    pub rate_limit_ms: u64,
    pub max_retries: u32,
}

impl Config {
    /// Builds the settings from their raw texts (as read from the environment): each numeric
    /// setting that is absent or does not parse takes its default; an absent user agent takes
    /// the default one.
    pub fn from_settings(
        max_results: Option<&str>,
        timeout_secs: Option<&str>,
        user_agent: Option<String>,
        cache_ttl_secs: Option<&str>,
        rate_limit_ms: Option<&str>,
        max_retries: Option<&str>,
    ) -> (r: Config)
        ensures
            r.max_results as nat == setting_value(opt_view(max_results), 10, usize::MAX as nat),
            r.timeout_secs as nat == setting_value(opt_view(timeout_secs), 10, u64::MAX as nat),
            r.cache_ttl_secs as nat == setting_value(opt_view(cache_ttl_secs), 300, u64::MAX as nat),
            r.rate_limit_ms as nat == setting_value(opt_view(rate_limit_ms), 1000, u64::MAX as nat),
            r.max_retries as nat == setting_value(opt_view(max_retries), 3, u32::MAX as nat),
            r.user_agent@ == match user_agent {
                Some(u) => u@,
                None => "websearch-mcp/0.1"@,
            },
    {
        let user_agent = match user_agent {
            Some(u) => u,
            None => "websearch-mcp/0.1".to_owned(),
        };
        Config {
            max_results: setting(max_results, DEFAULT_MAX_RESULTS as u64, usize::MAX as u64) as usize,
            timeout_secs: setting(timeout_secs, DEFAULT_TIMEOUT_SECS, u64::MAX),
            user_agent,
            cache_ttl_secs: setting(cache_ttl_secs, DEFAULT_CACHE_TTL_SECS, u64::MAX),
            rate_limit_ms: setting(rate_limit_ms, DEFAULT_RATE_LIMIT_MS, u64::MAX),
            max_retries: setting(max_retries, DEFAULT_MAX_RETRIES as u64, u32::MAX as u64) as u32,
        }
    }

    /// The cache's time-to-live in milliseconds, held at `u64::MAX` when it does not fit.
    pub fn cache_ttl_ms(&self) -> (r: u64)
        ensures
            r == if self.cache_ttl_secs * 1000 <= u64::MAX {
                (self.cache_ttl_secs * 1000) as u64
            } else {
                u64::MAX
            },
    {
        if self.cache_ttl_secs <= u64::MAX / 1000 {
            self.cache_ttl_secs * 1000
        } else {
            u64::MAX
        }
    }

    /// The result budget of a search: the one asked for, else the configured one.
    pub fn effective_max_results(&self, requested: Option<usize>) -> (r: usize)
        ensures
            r == match requested {
                Some(n) => n,
                None => self.max_results,
            },
    {
        match requested {
            Some(n) => n,
            None => self.max_results,
        }
    }
}

} // verus!
