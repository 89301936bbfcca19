//! Resolution of the worker's resource directory and entry point.
//!
//! The shell queries its platform for candidate directories; this module
//! decides which one counts, in the fixed order of preference, and forms
//! the worker's entry point path beneath it.

use vstd::prelude::*;

verus! {

/// The text of an optional string.
pub open spec fn opt_text(o: Option<String>) -> Option<Seq<char>> {
    match o {
        Some(s) => Some(s@),
        None => None,
    }
}

/// The directory the worker runs in: the installation's resource
/// directory, else the application data directory, else the current
/// working directory.
pub open spec fn spec_resolve_dir(
    resource: Option<Seq<char>>,
    app_data: Option<Seq<char>>,
    cwd: Option<Seq<char>>,
) -> Option<Seq<char>> {
    if resource is Some {
        resource
    } else if app_data is Some {
        app_data
    } else {
        cwd
    }
}

/// Pick the worker's directory from the platform's candidates, in the
/// fixed order of preference; none at all means resolution failed.
pub fn resolve_resource_dir(
    resource: Option<String>,
    app_data: Option<String>,
    cwd: Option<String>,
) -> (r: Option<String>)
    ensures
        opt_text(r) == spec_resolve_dir(opt_text(resource), opt_text(app_data), opt_text(cwd)),
{
    match resource {
        Some(d) => Some(d),
        None => match app_data {
            Some(d) => Some(d),
            None => cwd,
        },
    }
}

/// The message surfaced when no candidate directory exists.
pub fn unresolved_dir_message() -> (m: String)
    ensures
        m@ == "unable to resolve resource directory"@,
{
    String::from_str("unable to resolve resource directory")
}

/// The worker's entry point path beneath its resource directory.
pub fn worker_entry_path(dir: &str) -> (p: String)
    ensures
        p@ == dir@ + "/src/index.js"@,
{
    let mut p = dir.to_owned();
    p.append("/src/index.js");
    p
}

} // verus!
