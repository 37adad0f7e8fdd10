//! The provider's operation catalogue.

use vstd::prelude::*;
use vstd::string::*;
use crate::binding::{
    api_version_query, pair_views, status_map1, HttpMethod, Invocation, PayloadKind, StatusMapping,
};

verus! {

/// Lists every operation the provider exposes: an authenticated GET
/// answered by 200 with a decoded body.
pub fn list(base_path: &str, api_version: &str) -> (inv: Invocation)
    ensures
        inv.method == HttpMethod::Get,
        inv.url@ == base_path@ + "/providers/Microsoft.Advisor/operations"@,
        pair_views(inv.query@) == seq![("api-version"@, api_version@)],
        !inv.has_body,
        inv.requires_auth,
        inv.response_map@ == seq![(StatusMapping { status: 200, kind: PayloadKind::Json })],
{
    let url = String::from_str(base_path).concat("/providers/Microsoft.Advisor/operations");
    Invocation {
        method: HttpMethod::Get,
        url,
        query: api_version_query(api_version),
        has_body: false,
        requires_auth: true,
        response_map: status_map1(200, PayloadKind::Json),
    }
}

} // verus!
