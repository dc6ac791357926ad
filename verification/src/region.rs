//! World regions of the commerce platform, each resolving to a pair of base
//! URLs: one for the business API, one for the authorization endpoint. A
//! pure lookup table, immutable for a client's lifetime.

use vstd::prelude::*;

verus! {

/// A named deployment location of the commerce platform.
#[derive(Debug, Clone, Copy, PartialEq, Eq, Structural)]
pub enum Region {
    Europe,
    NorthAmerica,
}

/// The base URL of the business API in the given region.
pub open spec fn spec_api_url(r: Region) -> Seq<char> {
    match r {
        Region::Europe => "https://api.sphere.io"@,
        Region::NorthAmerica => "https://api.commercetools.co"@,
    }
}

/// The base URL of the authorization endpoint in the given region.
pub open spec fn spec_auth_url(r: Region) -> Seq<char> {
    match r {
        Region::Europe => "https://auth.sphere.io"@,
        Region::NorthAmerica => "https://auth.commercetools.co"@,
    }
}

impl Region {
    /// The base URL of the business API in this region.
    pub fn api_url(&self) -> (r: &'static str)
        ensures
            r@ == spec_api_url(*self),
    {
        match self {
            Region::Europe => "https://api.sphere.io",
            Region::NorthAmerica => "https://api.commercetools.co",
        }
    }

    /// The base URL of the authorization endpoint in this region.
    pub fn auth_url(&self) -> (r: &'static str)
        ensures
            r@ == spec_auth_url(*self),
    {
        match self {
            Region::Europe => "https://auth.sphere.io",
            Region::NorthAmerica => "https://auth.commercetools.co",
        }
    }
}

} // verus!
