//! Which binaries are managed, where their releases come from, and which assets suit the host.
use vstd::prelude::*;
use crate::checker::{AssetMatcher, Target};

verus! {

/// The source used for a binary: the override where one is given and non-empty,
/// otherwise the default.
pub open spec fn chosen_source(over: Option<Seq<char>>, default: Seq<char>) -> Seq<char> {
    match over {
        Some(o) => if o.len() > 0 { o } else { default },
        None => default,
    }
}

fn source_or(over: Option<String>, default: &str) -> (r: String)
    ensures
        r@ == chosen_source(
            match over {
                Some(o) => Some(o@),
                None => None,
            },
            default@,
        ),
{
    match over {
        Some(o) => if o.unicode_len() > 0 { o } else { String::from_str(default) },
        None => String::from_str(default),
    }
}

fn target(binary: &str, repo: String) -> (r: Target)
    ensures
        r.binary@ == binary@,
        r.repo@ == repo@,
{
    Target { binary: String::from_str(binary), repo }
}

/// The managed binaries, in the order they are checked, each with its release source.
/// An override replaces a binary's default source.
pub fn default_targets(
    amaru_pi_repo: Option<String>,
    amaru_repo: Option<String>,
    amaru_doctor_repo: Option<String>,
) -> (r: Vec<Target>)
    ensures
        r@.len() == 3,
        r@[0].binary@ == "amaru-pi"@,
        r@[0].repo@ == chosen_source(
            match amaru_pi_repo {
                Some(o) => Some(o@),
                None => None,
            },
            "jeluard/amaru-pi"@,
        ),
        r@[1].binary@ == "amaru"@,
        r@[1].repo@ == chosen_source(
            match amaru_repo {
                Some(o) => Some(o@),
                None => None,
            },
            "pragma-org/amaru"@,
        ),
        r@[2].binary@ == "amaru-doctor"@,
        r@[2].repo@ == chosen_source(
            match amaru_doctor_repo {
                Some(o) => Some(o@),
                None => None,
            },
            "jeluard/amaru-doctor"@,
        ),
{
    let mut r: Vec<Target> = Vec::new();
    r.push(target("amaru-pi", source_or(amaru_pi_repo, "jeluard/amaru-pi")));
    r.push(target("amaru", source_or(amaru_repo, "pragma-org/amaru")));
    r.push(target("amaru-doctor", source_or(amaru_doctor_repo, "jeluard/amaru-doctor")));
    r
}

/// Assets for Linux on 64-bit ARM, packed as a gzip'd tarball.
pub fn host_matcher() -> (r: AssetMatcher)
    ensures
        r@ == seq!["linux"@, "aarch64"@, ".tar.gz"@],
{
    let mut tokens: Vec<String> = Vec::new();
    tokens.push(String::from_str("linux"));
    tokens.push(String::from_str("aarch64"));
    tokens.push(String::from_str(".tar.gz"));
    let r = AssetMatcher { tokens };
    assert(r@ =~= seq!["linux"@, "aarch64"@, ".tar.gz"@]);
    r
}

/// The services that run managed binaries, stopped before and started after activation.
pub fn managed_services() -> (r: Vec<String>)
    ensures
        r@.map_values(|s: String| s@) == seq!["amaru-pi.service"@, "amaru.service"@],
{
    let mut r: Vec<String> = Vec::new();
    r.push(String::from_str("amaru-pi.service"));
    r.push(String::from_str("amaru.service"));
    assert(r@.map_values(|s: String| s@) =~= seq!["amaru-pi.service"@, "amaru.service"@]);
    r
}

} // verus!
