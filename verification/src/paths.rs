//! Naming of the daemon's persisted locations: app directories under the
//! apps root, and the daemon-wide files under the flare directory. Where
//! those roots live on disk (home directory, environment overrides) is the
//! surrounding process's concern; these functions only build the names.

use vstd::prelude::*;
use crate::strutil::{replace_char, spec_replace_char};

verus! {

/// An app's normalized name: every path separator replaced, so a repo
/// identifier like `acme/app` becomes one directory name.
pub open spec fn spec_normalize_name(name: Seq<char>) -> Seq<char> {
    spec_replace_char(name, '/', '_')
}

/// Normalizes an app name for use as a directory name.
pub fn normalize_name(name: &str) -> (r: String)
    ensures
        r@ == spec_normalize_name(name@),
{
    replace_char(name, '/', '_')
}

/// Joins a directory and a name below it.
pub fn join_path(base: &str, below: &str) -> (r: String)
    ensures
        r@ == base@ + "/"@ + below@,
{
    let mut out: String = base.to_owned();
    out.append("/");
    out.append(below);
    out
}

/// The directory an app lives in: the apps root, then the normalized name.
pub fn app_dir(apps_root: &str, name: &str) -> (r: String)
    ensures
        r@ == apps_root@ + "/"@ + spec_normalize_name(name@),
{
    let norm = normalize_name(name);
    join_path(apps_root, norm.as_str())
}

/// The client's device-registry file under the flare directory.
pub fn config_path(flare_dir: &str) -> (r: String)
    ensures
        r@ == flare_dir@ + "/"@ + "flare.conf"@,
{
    join_path(flare_dir, "flare.conf")
}

/// The daemon's token-hash store under the flare directory.
pub fn tokens_path(flare_dir: &str) -> (r: String)
    ensures
        r@ == flare_dir@ + "/"@ + "daemon_tokens.toml"@,
{
    join_path(flare_dir, "daemon_tokens.toml")
}

/// The client's saved forge credentials under the flare directory.
pub fn auth_path(flare_dir: &str) -> (r: String)
    ensures
        r@ == flare_dir@ + "/"@ + "auth.toml"@,
{
    join_path(flare_dir, "auth.toml")
}

} // verus!
