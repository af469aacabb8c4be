//! Where the cache file lives.

use vstd::prelude::*;
use vstd::string::*;

verus! {

/// Neither the cache directory nor the home directory is known.
#[derive(Debug, Clone, Copy, PartialEq, Eq, Structural)]
pub struct ConfigError;

/// The cache directory: `xdg_cache_home` where it is set and not empty, else
/// `.cache` under `home`, else none.
pub open spec fn cached_dir_of(xdg_cache_home: Option<&str>, home: Option<&str>) -> Option<Seq<char>> {
    match xdg_cache_home {
        Some(dir) if dir@.len() > 0 => Some(dir@),
        _ => match home {
            Some(h) => Some(h@ + "/.cache"@),
            None => None,
        },
    }
}

/// The cache file inside `dir`.
pub open spec fn cached_file_of(dir: Seq<char>) -> Seq<char> {
    dir + "/exchange_rate.json"@
}

/// Picks the cache directory from the values of `XDG_CACHE_HOME` and `HOME`,
/// each `None` when unset.
pub fn get_cached_dir(xdg_cache_home: Option<&str>, home: Option<&str>) -> (r: Result<String, ConfigError>)
    ensures
        match cached_dir_of(xdg_cache_home, home) {
            Some(dir) => r.is_ok() && r.unwrap()@ == dir,
            None => r == Err::<String, ConfigError>(ConfigError),
        },
{
    if let Some(dir) = xdg_cache_home {
        if !dir.is_empty() {
            return Ok(String::from_str(dir));
        }
    }
    match home {
        Some(h) => Ok(String::from_str(h).concat("/.cache")),
        None => Err(ConfigError),
    }
}

/// The path of the cache file inside `dir`.
pub fn cached_file(dir: &str) -> (r: String)
    ensures
        r@ == cached_file_of(dir@),
{
    String::from_str(dir).concat("/exchange_rate.json")
}

} // verus!
