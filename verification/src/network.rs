use vstd::prelude::*;

verus! {

/// Target chain environment. It decides which network-specific path segment
/// a verifier endpoint uses; an unrecognized network must fail configuration
/// rather than default silently, so the set is closed.
#[derive(Clone, Copy, Debug, PartialEq, Eq, Structural)]
pub enum Network {
    Mainnet,
    Sepolia,
}

/// The supported third-party verification services. A closed set: each
/// variant has a hand-written endpoint convention of its own.
#[derive(Clone, Copy, Debug, PartialEq, Eq, Structural)]
pub enum Verifier {
    Walnut,
    Voyager,
}

/// The canonical lowercase display name of a verifier service.
pub open spec fn spec_verifier_name(v: Verifier) -> Seq<char> {
    match v {
        Verifier::Walnut => "walnut"@,
        Verifier::Voyager => "voyager"@,
    }
}

impl Verifier {
    /// Canonical lowercase name, used in user-facing prompts.
    pub fn name(&self) -> (r: String)
        ensures
            r@ == spec_verifier_name(*self),
    {
        match self {
            Verifier::Walnut => "walnut".to_owned(),
            Verifier::Voyager => "voyager".to_owned(),
        }
    }
}

} // verus!
