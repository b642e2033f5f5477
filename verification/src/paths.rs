//! Where the proxy's YAML configuration lives on disk.
//!
//! The file sits at a fixed subpath, `proxypal/proxy-config.yaml`, under the
//! platform's per-user configuration directory; when no such directory
//! exists, under the current directory `.` instead.

use vstd::prelude::*;

verus! {

/// The base the proxy paths hang off: the per-user configuration directory
/// when the platform has one, `.` otherwise.
pub open spec fn spec_config_base(base: Option<String>) -> Seq<char> {
    match base {
        Some(b) => b@,
        None => "."@,
    }
}

/// The directory holding the proxy configuration, under the given base.
pub open spec fn spec_proxy_dir(base: Option<String>) -> Seq<char> {
    spec_config_base(base) + "/proxypal"@
}

/// The proxy configuration file inside the directory `dir`.
pub open spec fn spec_proxy_file(dir: Seq<char>) -> Seq<char> {
    dir + "/proxy-config.yaml"@
}

/// Holds of every directory path this module resolves: it ends in the fixed
/// `/proxypal` component, whatever base the platform supplied.
pub open spec fn ends_in_proxypal(dir: Seq<char>) -> bool {
    &&& dir.len() >= "/proxypal"@.len()
    &&& dir.subrange(dir.len() - "/proxypal"@.len(), dir.len() as int) == "/proxypal"@
}

/// Directory holding the proxy configuration, under the platform's per-user
/// configuration directory `base`, or under `.` when the platform has none.
pub fn proxy_config_dir(base: Option<String>) -> (r: String)
    ensures
        r@ == spec_proxy_dir(base),
{
    let mut r: String = match base {
        Some(b) => b,
        None => String::from_str("."),
    };
    r.append("/proxypal");
    r
}

/// Full path of the proxy configuration file inside the directory `dir`.
pub fn proxy_config_file(dir: String) -> (r: String)
    ensures
        r@ == spec_proxy_file(dir@),
{
    dir.concat("/proxy-config.yaml")
}

/// Relies on dirs::config_dir for the platform's per-user configuration
/// directory. The result depends on the environment, so nothing is promised
/// of it; callers state what holds of every outcome.
#[verifier::external_body]
fn platform_config_dir() -> (r: Option<String>) {
    dirs::config_dir().map(|p| p.to_string_lossy().into_owned())
}

/// Resolves, on this machine, the directory that holds the proxy
/// configuration and the file inside it, consistently: the file path is the
/// directory path extended by the fixed file name, and the directory ends in
/// the fixed `/proxypal` component whatever the platform answered.
pub fn resolve_proxy_config_paths() -> (r: (String, String))
    ensures
        r.1@ == spec_proxy_file(r.0@),
        ends_in_proxypal(r.0@),
{
    let base = platform_config_dir();
    let dir = proxy_config_dir(base);
    proof {
        lemma_proxy_dir_ends_in_proxypal(dir@);
    }
    let file = proxy_config_file(dir.clone());
    (dir, file)
}

/// A directory built by appending `/proxypal` to any base ends in it.
proof fn lemma_proxy_dir_ends_in_proxypal(dir: Seq<char>)
    requires
        exists|base: Option<String>| dir == spec_proxy_dir(base),
    ensures
        ends_in_proxypal(dir),
{
    let base = choose|base: Option<String>| dir == spec_proxy_dir(base);
    let b = spec_config_base(base);
    let tail = "/proxypal"@;
    assert(dir =~= b + tail);
    assert(dir.subrange(dir.len() - tail.len(), dir.len() as int) =~= tail);
}

} // verus!
