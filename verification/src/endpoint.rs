use vstd::prelude::*;
use vstd::string::*;

use crate::network::{Network, Verifier};

verus! {

/// Documented default base URL of each verifier service's API.
pub open spec fn spec_default_base_url(v: Verifier) -> Seq<char> {
    match v {
        Verifier::Walnut => "https://api.walnut.dev"@,
        Verifier::Voyager => "https://api.voyager.online/beta"@,
    }
}

/// Name of the environment variable that overrides a service's base URL.
/// The library never reads the environment itself; the driver reads this
/// variable and threads the value in as an explicit override.
pub open spec fn spec_base_url_env_var(v: Verifier) -> Seq<char> {
    match v {
        Verifier::Walnut => "WALNUT_API_URL"@,
        Verifier::Voyager => "VOYAGER_API_URL"@,
    }
}

/// Network-specific path suffix of each service. The table is exhaustive
/// over the product of both enumerations by construction: adding a network
/// without extending it is a compile error, never a silent fallback.
pub open spec fn spec_network_path(v: Verifier, n: Network) -> Seq<char> {
    match (v, n) {
        (Verifier::Walnut, Network::Mainnet) => "/v1/sn_main/verify"@,
        (Verifier::Walnut, Network::Sepolia) => "/v1/sn_sepolia/verify"@,
        (Verifier::Voyager, Network::Mainnet) => "/v1/sn_main/verify"@,
        (Verifier::Voyager, Network::Sepolia) => "/v1/sn_sepolia/verify"@,
    }
}

/// The submission URL: the override when one is given, else the documented
/// default base, followed by the service's network-specific path.
pub open spec fn spec_endpoint(v: Verifier, n: Network, base_override: Option<Seq<char>>) -> Seq<
    char,
> {
    (match base_override {
        Some(b) => b,
        None => spec_default_base_url(v),
    }) + spec_network_path(v, n)
}

/// Environment variable name consulted by the driver for a base override.
pub fn base_url_env_var(v: &Verifier) -> (r: String)
    ensures
        r@ == spec_base_url_env_var(*v),
{
    match v {
        Verifier::Walnut => "WALNUT_API_URL".to_owned(),
        Verifier::Voyager => "VOYAGER_API_URL".to_owned(),
    }
}

/// Resolve the submission endpoint of a service on a network. Total: every
/// supported pair yields a URL, with no error path and no silent default for
/// an unmapped network (the match over the closed enumerations is exhaustive).
pub fn resolve_endpoint(v: Verifier, n: Network, base_override: Option<&String>) -> (r: String)
    ensures
        base_override matches Some(b) ==> r@ == spec_endpoint(v, n, Some(b@)),
        base_override is None ==> r@ == spec_endpoint(v, n, None),
{
    let mut url: String = match base_override {
        Some(b) => b.clone(),
        None => match v {
            Verifier::Walnut => "https://api.walnut.dev".to_owned(),
            Verifier::Voyager => "https://api.voyager.online/beta".to_owned(),
        },
    };
    let path: &str = match (v, n) {
        (Verifier::Walnut, Network::Mainnet) => "/v1/sn_main/verify",
        (Verifier::Walnut, Network::Sepolia) => "/v1/sn_sepolia/verify",
        (Verifier::Voyager, Network::Mainnet) => "/v1/sn_main/verify",
        (Verifier::Voyager, Network::Sepolia) => "/v1/sn_sepolia/verify",
    };
    url.append(path);
    url
}

/// Law: endpoint resolution is defined for every supported service/network
/// pair, the URL is non-empty, and it ends with the network-appropriate path
/// segment, which is itself non-empty.
pub proof fn lemma_endpoint_total(v: Verifier, n: Network, base_override: Option<Seq<char>>)
    ensures
        spec_network_path(v, n).len() > 0,
        spec_endpoint(v, n, base_override).len() > 0,
        spec_endpoint(v, n, base_override).subrange(
            spec_endpoint(v, n, base_override).len() - spec_network_path(v, n).len(),
            spec_endpoint(v, n, base_override).len() as int,
        ) == spec_network_path(v, n),
{
    reveal_strlit("/v1/sn_main/verify");
    reveal_strlit("/v1/sn_sepolia/verify");
    let base = match base_override {
        Some(b) => b,
        None => spec_default_base_url(v),
    };
    let path = spec_network_path(v, n);
    assert((base + path).subrange(base.len() as int, (base.len() + path.len()) as int) =~= path);
}

/// Law: with an override the URL begins with the override; without one it
/// begins with the documented default base.
pub proof fn lemma_endpoint_override(v: Verifier, n: Network, base: Seq<char>)
    ensures
        spec_endpoint(v, n, Some(base)).subrange(0, base.len() as int) == base,
        spec_endpoint(v, n, None).subrange(
            0,
            spec_default_base_url(v).len() as int,
        ) == spec_default_base_url(v),
{
    let path = spec_network_path(v, n);
    assert((base + path).subrange(0, base.len() as int) =~= base);
    let dflt = spec_default_base_url(v);
    assert((dflt + path).subrange(0, dflt.len() as int) =~= dflt);
}

} // verus!
