use vstd::prelude::*;

verus! {

/// Cache budget, in megabytes, used when the configuration names none.
pub const DEFAULT_CACHE_LIMIT_MB: u64 = 50;

/// Stored client configuration: the API token and the cache budget.
pub struct Config {
    pub token: String,
    pub cache_limit_mb: u64,
}

/// The cache budget in megabytes that applies when none is configured.
pub fn default_cache_limit_mb() -> (r: u64)
    ensures
        r == DEFAULT_CACHE_LIMIT_MB,
{
    DEFAULT_CACHE_LIMIT_MB
}

/// What `str::trim` makes of a string.
pub uninterp spec fn trimmed(s: Seq<char>) -> Seq<char>;

/// Relies on `str::trim`: the string without its leading and trailing
/// whitespace, which depends on its characters alone.
#[verifier::external_body]
fn trim_text(s: &str) -> (r: String)
    ensures
        r@ == trimmed(s@),
{
    s.trim().to_string()
}

/// The first of two already trimmed token candidates that is present and
/// not empty.
pub open spec fn first_token(first: Option<Seq<char>>, second: Option<Seq<char>>) -> Option<Seq<char>> {
    match first {
        Some(t) if t.len() > 0 => Some(t),
        _ => match second {
            Some(t) if t.len() > 0 => Some(t),
            _ => None,
        },
    }
}

/// The view of an optional string.
pub open spec fn opt_view(s: Option<String>) -> Option<Seq<char>> {
    match s {
        Some(t) => Some(t@),
        None => None,
    }
}

/// The trimmed form of an optional string.
pub open spec fn opt_trimmed(s: Option<String>) -> Option<Seq<char>> {
    match s {
        Some(t) => Some(trimmed(t@)),
        None => None,
    }
}

/// Picks the first of two trimmed token candidates that is present and not
/// empty.
pub fn pick_token(first: Option<String>, second: Option<String>) -> (r: Option<String>)
    ensures
        opt_view(r) == first_token(opt_view(first), opt_view(second)),
{
    match first {
        Some(t) if !t.as_str().is_empty() => return Some(t),
        _ => {},
    }
    match second {
        Some(t) if !t.as_str().is_empty() => Some(t),
        _ => None,
    }
}

/// The API token to use: the configured one when it is not blank, else the
/// one from the environment when it is not blank, each without surrounding
/// whitespace; none when neither is usable.
pub fn choose_token(configured: Option<String>, from_env: Option<String>) -> (r: Option<String>)
    ensures
        opt_view(r) == first_token(opt_trimmed(configured), opt_trimmed(from_env)),
{
    let first = match &configured {
        Some(t) => Some(trim_text(t.as_str())),
        None => None,
    };
    let second = match &from_env {
        Some(t) => Some(trim_text(t.as_str())),
        None => None,
    };
    pick_token(first, second)
}

impl Clone for Config {
    fn clone(&self) -> (r: Self)
        ensures
            r == *self,
    {
        Config { token: self.token.clone(), cache_limit_mb: self.cache_limit_mb }
    }
}

impl Config {
    /// A configuration holding `token` and the default cache budget.
    pub fn new(token: String) -> (r: Self)
        ensures
            r.token == token,
            r.cache_limit_mb == DEFAULT_CACHE_LIMIT_MB,
    {
        Config { token, cache_limit_mb: default_cache_limit_mb() }
    }
}

} // verus!
