use vstd::prelude::*;

verus! {

pub const UNKNOWN: &'static str = "unknown";

/// The version and the commit that the build recorded, `unknown` for each
/// that it did not.
pub fn get_version(version: Option<&'static str>, git_sha: Option<&'static str>) -> (r: (
    &'static str,
    &'static str,
))
    ensures
        r.0@ == match version {
            Some(v) => v@,
            None => UNKNOWN@,
        },
        r.1@ == match git_sha {
            Some(s) => s@,
            None => UNKNOWN@,
        },
{
    let v = match version {
        Some(v) => v,
        None => UNKNOWN,
    };
    let s = match git_sha {
        Some(s) => s,
        None => UNKNOWN,
    };
    (v, s)
}

} // verus!
