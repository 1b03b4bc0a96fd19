use vstd::prelude::*;

verus! {

/// Wire-format generations of the service API.
///
/// Exactly one version is active; version 1 is permanently retired and a
/// generation call configured with it fails before any network activity.
#[derive(Debug, Clone, Copy, PartialEq, Eq, Structural)]
pub enum Api {
    V1,
    V3,
}

/// The version-specific generation endpoint.
pub open spec fn api_endpoint(v: Api) -> Seq<char> {
    match v {
        Api::V1 => "https://api.craiyon.com/v1"@,
        Api::V3 => "https://api.craiyon.com/v3"@,
    }
}

impl Api {
    /// The URL of the endpoint that this protocol version is served at.
    pub fn as_str(&self) -> (r: &'static str)
        ensures
            r@ == api_endpoint(*self),
    {
        match self {
            Api::V1 => "https://api.craiyon.com/v1",
            Api::V3 => "https://api.craiyon.com/v3",
        }
    }
}

impl Default for Api {
    /// The active protocol version.
    fn default() -> (r: Self)
        ensures
            r == Api::V3,
    {
        Api::V3
    }
}

} // verus!
