//! Access validation for user-supplied input files: a size ceiling and a
//! directory allow-list.
//!
//! The caller stats and canonicalizes the path (falling back to the
//! literal path when canonicalization fails) and passes the resulting
//! plain values in; every decision is made here.

use vstd::prelude::*;
use crate::config::Config;
use crate::mime::{str_eq, str_has_prefix};
use vstd::string::*;

verus! {

/// Why an input file was rejected.
#[derive(Debug)]
pub enum AccessError {
    /// The file exceeds the configured size ceiling (the payload is the
    /// configured limit in megabytes, for the diagnostic).
    TooLarge(u64),
    /// The file lies outside every allow-listed directory.
    NotAllowed,
}

/// The size ceiling in bytes for a configured limit of `mb` megabytes,
/// saturating at the machine limit.
pub open spec fn size_limit_bytes(mb: u64) -> int {
    if mb * 0x100000 > u64::MAX {
        u64::MAX as int
    } else {
        mb * 0x100000
    }
}

/// The ceiling in bytes for a configured limit in megabytes.
pub fn mb_to_bytes(mb: u64) -> (r: u64)
    ensures
        r == size_limit_bytes(mb),
{
    if mb > u64::MAX / 0x100000 {
        proof {
            vstd::arithmetic::mul::lemma_mul_inequality(
                (u64::MAX / 0x100000 + 1) as int,
                mb as int,
                0x100000,
            );
        }
        u64::MAX
    } else {
        proof {
            vstd::arithmetic::mul::lemma_mul_inequality(
                mb as int,
                (u64::MAX / 0x100000) as int,
                0x100000,
            );
        }
        mb * 0x100000
    }
}

/// `path` lies under the directory `dir` (or equals it), in the
/// component-wise sense: either the paths are equal, or `dir` (with any
/// single trailing slash ignored) is followed in `path` by a slash.
pub open spec fn path_under_spec(path: Seq<char>, dir: Seq<char>) -> bool {
    let d = if dir.len() > 0 && dir[dir.len() - 1] == '/' {
        dir.drop_last()
    } else {
        dir
    };
    path == d || (path.len() > d.len() && path.subrange(0, d.len() as int) == d && path[d.len() as int]
        == '/')
}

/// Whether `path` lies under `dir`.
pub fn path_under(path: &str, dir: &str) -> (r: bool)
    ensures
        r == path_under_spec(path@, dir@),
{
    let dn = dir.unicode_len();
    let trailing = dn > 0 && dir.get_char(dn - 1) == '/';
    let d: &str = if trailing {
        dir.substring_char(0, dn - 1)
    } else {
        dir
    };
    proof {
        if trailing {
            assert(d@ =~= dir@.drop_last());
        }
    }
    let dlen = d.unicode_len();
    if str_eq(path, d) {
        return true;
    }
    let plen = path.unicode_len();
    if plen > dlen && str_has_prefix(path, d) {
        path.get_char(dlen) == '/'
    } else {
        false
    }
}

/// `path` lies under at least one of the listed directories.
pub open spec fn allowed_by_spec(path: Seq<char>, dirs: Seq<Seq<char>>) -> bool {
    exists|i: int| 0 <= i < dirs.len() && path_under_spec(path, dirs[i])
}

/// Whether `path` lies under any of the listed directories.
pub fn path_allowed(path: &str, dirs: &Vec<String>) -> (r: bool)
    ensures
        r == allowed_by_spec(path@, dirs.deep_view()),
{
    let mut i: usize = 0;
    while i < dirs.len()
        invariant
            0 <= i <= dirs.len(),
            forall|j: int| 0 <= j < i ==> !path_under_spec(path@, dirs.deep_view()[j]),
        decreases dirs.len() - i,
    {
        if path_under(path, dirs[i].as_str()) {
            assert(path_under_spec(path@, dirs.deep_view()[i as int]));
            return true;
        }
        i += 1;
    }
    false
}

/// The validator's decision: rejected when a positive size ceiling is
/// configured, the file's size is known and exceeds it; otherwise rejected
/// when a non-empty allow-list is configured and the canonical path lies
/// under none of its directories; otherwise accepted.
pub open spec fn validate_spec(
    max_mb: Option<u64>,
    dirs: Option<Seq<Seq<char>>>,
    file_len: Option<u64>,
    canonical: Seq<char>,
) -> Result<(), AccessError> {
    if size_rejected(max_mb, file_len) {
        Err(AccessError::TooLarge(max_mb.unwrap()))
    } else if dirs_rejected(dirs, canonical) {
        Err(AccessError::NotAllowed)
    } else {
        Ok(())
    }
}

/// A positive size ceiling is configured, the size is known, and it
/// exceeds the ceiling.
pub open spec fn size_rejected(max_mb: Option<u64>, file_len: Option<u64>) -> bool {
    match (max_mb, file_len) {
        (Some(mb), Some(len)) => mb > 0 && len > size_limit_bytes(mb),
        _ => false,
    }
}

/// A non-empty allow-list is configured and the path lies under none of
/// its directories.
pub open spec fn dirs_rejected(dirs: Option<Seq<Seq<char>>>, canonical: Seq<char>) -> bool {
    match dirs {
        Some(ds) => ds.len() > 0 && !allowed_by_spec(canonical, ds),
        None => false,
    }
}

/// Validate access to an input file.  `file_len` is the file's size if its
/// metadata could be read; `canonical` is the canonicalized path, or the
/// literal path when canonicalization failed.  With no configuration at
/// all, every path passes.
pub fn validate_file_access(
    cfg: Option<&Config>,
    file_len: Option<u64>,
    canonical: &str,
) -> (r: Result<(), AccessError>)
    ensures
        ({
            let max_mb = match cfg {
                Some(c) => c.max_file_size_mb,
                None => None,
            };
            let dirs = match cfg {
                Some(c) => match c.allowed_directories {
                    Some(ds) => Some(ds.deep_view()),
                    None => None,
                },
                None => None,
            };
            r == validate_spec(max_mb, dirs, file_len, canonical@)
        }),
{
    let c = match cfg {
        Some(c) => c,
        None => {
            return Ok(());
        },
    };
    if let Some(mb) = c.max_file_size_mb {
        if mb > 0 {
            if let Some(len) = file_len {
                if len > mb_to_bytes(mb) {
                    return Err(AccessError::TooLarge(mb));
                }
            }
        }
    }
    if let Some(dirs) = &c.allowed_directories {
        if dirs.len() > 0 {
            if !path_allowed(canonical, dirs) {
                return Err(AccessError::NotAllowed);
            }
        }
    }
    Ok(())
}

} // verus!
