//! Home-directory marker expansion for the filesystem backend.
//!
//! A resolved path may begin with the home-directory marker `~`; before
//! use, the filesystem backend replaces that prefix with the current
//! user's home directory.  The expansion itself is pure and verified;
//! only the home-directory lookup is deferred to the `home` crate.

use crate::error::StoreError;
use vstd::prelude::*;
use vstd::string::StrSliceExecFns;
use vstd::string::StringExecFns;

verus! {

/// True when the path begins with the home-directory marker.
pub open spec fn has_home_marker(path: Seq<char>) -> bool {
    path.len() > 0 && path[0] == '~'
}

/// The home-marker expansion of `path` against `home`: a leading `~`
/// is replaced by `home`; any other path stays unchanged.
pub open spec fn spec_expand_home(path: Seq<char>, home: Seq<char>) -> Seq<char> {
    if has_home_marker(path) {
        home + path.drop_first()
    } else {
        path
    }
}

/// Relies on `home::home_dir`: the current user's home directory, if
/// the environment reveals one.  The result depends on the environment
/// alone, so nothing more is stated of it.
#[verifier::external_body]
fn home_dir_string() -> (r: Option<String>) {
    home::home_dir().and_then(|p| p.into_os_string().into_string().ok())
}

/// Replaces a leading home marker in `path` with `home`; a path
/// without the marker is returned unchanged.
pub fn expand_home(path: &str, home: &str) -> (r: String)
    ensures
        r@ == spec_expand_home(path@, home@),
{
    let n = path.unicode_len();
    if n > 0 && path.get_char(0) == '~' {
        let rest = path.substring_char(1, n);
        let mut out = home.to_owned();
        out.append(rest);
        proof {
            assert(rest@ =~= path@.drop_first());
        }
        out
    } else {
        path.to_owned()
    }
}

/// Makes a resolved location usable as a filesystem path: expands a
/// leading home marker against the current user's home directory.  A
/// path without the marker comes back unchanged; one with the marker
/// fails with `NoHomeDir` when no home directory can be determined.
pub fn resolve_path(path: &str) -> (r: Result<String, StoreError>)
    ensures
        !has_home_marker(path@) ==> (r matches Ok(p) && p@ == path@),
        r matches Ok(p) ==> exists|h: Seq<char>| p@ == spec_expand_home(path@, h),
        r matches Err(e) ==> has_home_marker(path@) && e is NoHomeDir,
{
    let n = path.unicode_len();
    if n > 0 && path.get_char(0) == '~' {
        match home_dir_string() {
            Some(home) => {
                let expanded = expand_home(path, home.as_str());
                proof {
                    assert(expanded@ == spec_expand_home(path@, home@));
                }
                Ok(expanded)
            },
            None => Err(StoreError::NoHomeDir),
        }
    } else {
        let unchanged = path.to_owned();
        proof {
            assert(unchanged@ == spec_expand_home(path@, Seq::<char>::empty()));
        }
        Ok(unchanged)
    }
}

} // verus!
