//! The fixed catalog of provider kinds: a read-only value, built once
//! and passed in, that lists every kind with its description and builds
//! a default-shaped instance from a short name. Factories are pure;
//! collecting a credential belongs to the caller, which sets it on the
//! built instance afterwards.

use vstd::prelude::*;
use crate::provider::{vc_base_url, DummyProvider, Provider, ProviderModel, VisualCrossingProvider};

verus! {

/// The default-shaped instance a registry name resolves to, or nothing
/// on a name outside the fixed set.
pub open spec fn resolved_model(name: Seq<char>) -> Option<ProviderModel> {
    if name == "dummy"@ {
        Some(ProviderModel::Dummy)
    } else if name == "vc"@ {
        Some(ProviderModel::VisualCrossing { base_url: vc_base_url(), key: Seq::empty() })
    } else {
        None
    }
}

/// The build-time-known catalog of provider kinds.
pub struct Registry {}

impl Registry {
    /// Builds the catalog value handed to the entry point.
    pub fn new() -> (r: Self) {
        Self {  }
    }

    /// Every registered kind with its description, ordered by name.
    pub fn list(&self) -> (r: Vec<(String, String)>)
        ensures
            r@.len() == 2,
            r@[0].0@ == "dummy"@ && r@[0].1@ == "Dummy provider"@,
            r@[1].0@ == "vc"@ && r@[1].1@ == "Visual Crossing weather provider"@,
    {
        let mut r: Vec<(String, String)> = Vec::new();
        r.push(
            (String::from_str(DummyProvider::name()), String::from_str(DummyProvider::description())),
        );
        r.push(
            (
                String::from_str(VisualCrossingProvider::name()),
                String::from_str(VisualCrossingProvider::description()),
            ),
        );
        r
    }

    /// Resolves a short name to a fresh default-shaped instance of the
    /// named kind: a registered name always builds, an unknown name
    /// resolves to nothing.
    pub fn resolve(&self, name: &str) -> (r: Option<Provider>)
        ensures
            r is Some <==> resolved_model(name@) is Some,
            r matches Some(p) ==> resolved_model(name@) == Some(p@),
    {
        if crate::text::str_is(name, "dummy") {
            Some(Provider::Dummy(DummyProvider::new()))
        } else if crate::text::str_is(name, "vc") {
            Some(Provider::VisualCrossing(VisualCrossingProvider::new(String::new())))
        } else {
            None
        }
    }
}

} // verus!
