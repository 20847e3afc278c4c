//! URLs of ClickUp's developer resources.

use vstd::prelude::*;

verus! {

/// Authentication guide on the ClickUp developer portal.
pub const AUTHENTICATION_GUIDE_URL: &'static str = "https://developer.clickup.com/docs/authentication";

/// ClickUp public API v2 OpenAPI specification.
pub const OPENAPI_V2_SPEC_URL: &'static str = "https://developer.clickup.com/openapi/clickup-api-v2-reference.json";

/// ClickUp public API v3 OpenAPI specification.
pub const OPENAPI_V3_SPEC_URL: &'static str = "https://developer.clickup.com/openapi/ClickUp_PUBLIC_API_V3.yaml";

} // verus!
