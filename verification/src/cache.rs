//! Keeping the thumbnail cache under its size limit.
use vstd::prelude::*;

verus! {

/// Whether the cache, `size` bytes in all, is over its limit of `max_mb`
/// megabytes, counting whole megabytes of a million bytes.
pub fn cache_over_limit(size: u64, max_mb: usize) -> (r: bool)
    ensures
        r == (size / 1_000_000 > max_mb),
{
    size / 1_000_000 > max_mb as u64
}

/// Whether a file of the cache is a thumbnail, to be removed when the cache
/// is over its limit: its extension is `jpg`.
pub fn is_thumbnail(extension: Option<&str>) -> (r: bool)
    ensures
        r == (extension is Some && extension->0@ == "jpg"@),
{
    match extension {
        Some(e) => String::from_str(e) == String::from_str("jpg"),
        None => false,
    }
}

} // verus!
