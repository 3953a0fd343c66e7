//! Client configuration: the API key, the endpoint and the limits of calls.
//! Reading the process environment is left to the caller, which hands the
//! values it found to the constructors here.

use crate::error::Error;
use crate::text::{trim_text, trimmed};
use vstd::prelude::*;
use vstd::string::StrSliceExecFns;

verus! {

/// Endpoint of the service.
pub open spec fn production_url() -> Seq<char> {
    "https://api.e2b.app"@
}

/// Endpoint of a local development service.
pub open spec fn debug_url() -> Seq<char> {
    "http://localhost:3000"@
}

/// Seconds that a call may take by default.
pub const DEFAULT_TIMEOUT_SECONDS: u64 = 300;

/// Retries of a failed call by default.
pub const DEFAULT_MAX_RETRIES: u32 = 3;

/// Settings shared by every call of a client.
#[derive(Debug, Clone)]
pub struct Config {
    pub api_key: String,
    pub base_url: String,
    pub timeout_seconds: u64,
    pub max_retries: u32,
    pub debug: bool,
}

/// Whether two characters are equal once ASCII letters are put in lower
/// case.
pub open spec fn same_ignoring_ascii_case(x: char, y: char) -> bool {
    x == y || ('a' <= x && x <= 'z' && y as u32 + 32 == x as u32) || ('A' <= x && x <= 'Z'
        && x as u32 + 32 == y as u32)
}

/// Whether two texts are equal when ASCII letters are compared without
/// regard to case.
pub open spec fn eq_ignore_ascii_case(a: Seq<char>, b: Seq<char>) -> bool {
    a.len() == b.len() && forall|i: int| 0 <= i < a.len() ==> same_ignoring_ascii_case(#[trigger] a[i], b[i])
}

/// `s` with every leading copy of `p` removed.
pub open spec fn strip_prefixes(s: Seq<char>, p: Seq<char>) -> Seq<char>
    decreases s.len(),
{
    if p.len() > 0 && s.len() >= p.len() && s.subrange(0, p.len() as int) == p {
        strip_prefixes(s.subrange(p.len() as int, s.len() as int), p)
    } else {
        s
    }
}

/// The sandbox domain for a configured domain text: trimmed and without
/// leading `api.` parts, or nothing when that leaves nothing.
pub open spec fn domain_of(configured: Seq<char>) -> Option<Seq<char>> {
    let d = strip_prefixes(trimmed(configured), "api."@);
    if d.len() == 0 {
        None
    } else {
        Some(d)
    }
}

fn same_letter(x: char, y: char) -> (r: bool)
    ensures
        r == same_ignoring_ascii_case(x, y),
{
    x == y || ('a' <= x && x <= 'z' && y as u32 + 32 == x as u32) || ('A' <= x && x <= 'Z'
        && x as u32 + 32 == y as u32)
}

/// Whether a debug setting asks for debug mode: it is `true`, in any case.
pub open spec fn asks_debug(flag: Option<&str>) -> bool {
    match flag {
        Some(f) => eq_ignore_ascii_case(f@, "true"@),
        None => false,
    }
}

/// Whether the debug setting asks for debug mode: `true` in any case.
pub fn debug_enabled(flag: Option<&str>) -> (r: bool)
    ensures
        r == asks_debug(flag),
{
    match flag {
        None => false,
        Some(f) => {
            let want = "true";
            let n = f.unicode_len();
            if n != want.unicode_len() {
                return false;
            }
            let mut i: usize = 0;
            while i < n
                invariant
                    n == f@.len(),
                    n == want@.len(),
                    want@ == "true"@,
                    flag == Some(f),
                    i <= n,
                    forall|j: int| 0 <= j < i ==> same_ignoring_ascii_case(#[trigger] f@[j], want@[j]),
                decreases n - i,
            {
                if !same_letter(f.get_char(i), want.get_char(i)) {
                    assert(!same_ignoring_ascii_case(f@[i as int], "true"@[i as int]));
                    return false;
                }
                i = i + 1;
            }
            true
        },
    }
}

/// Removes every leading copy of `p` from `s`.
pub fn strip_repeated_prefix<'a>(s: &'a str, p: &str) -> (r: &'a str)
    ensures
        r@ == strip_prefixes(s@, p@),
{
    let m = p.unicode_len();
    let mut rest: &str = s;
    if m == 0 {
        return rest;
    }
    loop
        invariant
            m == p@.len(),
            m > 0,
            strip_prefixes(rest@, p@) == strip_prefixes(s@, p@),
        decreases rest@.len(),
    {
        let n = rest.unicode_len();
        if n < m {
            return rest;
        }
        let mut k: usize = 0;
        let mut same = true;
        while k < m
            invariant
                m == p@.len(),
                n == rest@.len(),
                m <= n,
                k <= m,
                same == (forall|t: int| 0 <= t < k ==> rest@[t] == p@[t]),
            decreases m - k,
        {
            if rest.get_char(k) != p.get_char(k) {
                same = false;
            }
            k = k + 1;
        }
        if !same {
            assert(!(rest@.subrange(0, m as int) =~= p@));
            return rest;
        }
        assert(rest@.subrange(0, m as int) =~= p@);
        rest = rest.substring_char(m, n);
    }
}

impl Config {
    /// The settings for an API key: the local endpoint in debug mode, the
    /// service's endpoint otherwise, and the default limits.
    pub fn for_key(api_key: String, debug: bool) -> (r: Config)
        ensures
            r.api_key == api_key,
            r.base_url@ == if debug {
                debug_url()
            } else {
                production_url()
            },
            r.timeout_seconds == DEFAULT_TIMEOUT_SECONDS,
            r.max_retries == DEFAULT_MAX_RETRIES,
            r.debug == debug,
    {
        let base_url = if debug {
            "http://localhost:3000".to_string()
        } else {
            "https://api.e2b.app".to_string()
        };
        Config {
            api_key,
            base_url,
            timeout_seconds: DEFAULT_TIMEOUT_SECONDS,
            max_retries: DEFAULT_MAX_RETRIES,
            debug,
        }
    }

    /// The settings for the values found in the environment: the API key,
    /// which must be there, and the debug setting.
    pub fn from_env_values(api_key: Option<String>, debug_flag: Option<&str>) -> (r: core::result::Result<Config, Error>)
        ensures
            match api_key {
                Some(k) => r matches Ok(c) && c.api_key == k && c.debug == asks_debug(debug_flag)
                    && c.base_url@ == (if c.debug { debug_url() } else { production_url() })
                    && c.timeout_seconds == DEFAULT_TIMEOUT_SECONDS && c.max_retries == DEFAULT_MAX_RETRIES,
                None => r matches Err(Error::ApiKeyNotFound),
            },
    {
        match api_key {
            Some(k) => {
                let debug = debug_enabled(debug_flag);
                Ok(Config::for_key(k, debug))
            },
            None => Err(Error::ApiKeyNotFound),
        }
    }

    /// The same settings with another endpoint.
    pub fn base_url(self, url: &str) -> (r: Config)
        ensures
            r.base_url@ == url@,
            r.api_key == self.api_key,
            r.timeout_seconds == self.timeout_seconds,
            r.max_retries == self.max_retries,
            r.debug == self.debug,
    {
        let mut c = self;
        c.base_url = url.to_string();
        c
    }

    /// The same settings with another call timeout, in seconds.
    pub fn timeout_seconds(self, timeout: u64) -> (r: Config)
        ensures
            r == (Config { timeout_seconds: timeout, ..self }),
    {
        let mut c = self;
        c.timeout_seconds = timeout;
        c
    }

    /// The same settings with another number of retries.
    pub fn max_retries(self, retries: u32) -> (r: Config)
        ensures
            r == (Config { max_retries: retries, ..self }),
    {
        let mut c = self;
        c.max_retries = retries;
        c
    }

    /// The same settings with debug mode on or off.
    pub fn debug(self, debug: bool) -> (r: Config)
        ensures
            r == (Config { debug, ..self }),
    {
        let mut c = self;
        c.debug = debug;
        c
    }

    /// Whether debug mode is on.
    pub fn is_debug(&self) -> (r: bool)
        ensures
            r == self.debug,
    {
        self.debug
    }

    /// The domain that sandboxes are reached under: `localhost` in debug
    /// mode; else the configured domain, trimmed and without leading `api.`
    /// parts, when one is configured and something is left; else `e2b.dev`.
    pub fn sandbox_domain_from(&self, configured: Option<&str>) -> (r: String)
        ensures
            r@ == if self.debug {
                "localhost"@
            } else {
                match configured {
                    Some(d) => match domain_of(d@) {
                        Some(x) => x,
                        None => "e2b.dev"@,
                    },
                    None => "e2b.dev"@,
                }
            },
    {
        if self.debug {
            return "localhost".to_string();
        }
        match configured {
            Some(d) => {
                let t = trim_text(d);
                let stripped = strip_repeated_prefix(t, "api.");
                if stripped.unicode_len() == 0 {
                    "e2b.dev".to_string()
                } else {
                    stripped.to_string()
                }
            },
            None => "e2b.dev".to_string(),
        }
    }
}

} // verus!
