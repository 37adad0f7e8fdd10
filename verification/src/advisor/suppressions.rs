//! Suppression operations: fetching, creating, deleting and listing the
//! suppressions attached to recommendations.

use vstd::prelude::*;
use vstd::string::*;
use crate::binding::{
    api_version_query, pair_views, status_map1, HttpMethod, Invocation, PayloadKind, StatusMapping,
};

verus! {

/// The URL every single-suppression operation addresses.
pub open spec fn suppression_url(
    base_path: Seq<char>,
    resource_uri: Seq<char>,
    recommendation_id: Seq<char>,
    name: Seq<char>,
) -> Seq<char> {
    base_path + "/"@ + resource_uri + "/providers/Microsoft.Advisor/recommendations/"@
        + recommendation_id + "/suppressions/"@ + name
}

/// Builds the URL of one suppression.
fn suppression_url_of(
    base_path: &str,
    resource_uri: &str,
    recommendation_id: &str,
    name: &str,
) -> (r: String)
    ensures
        r@ == suppression_url(base_path@, resource_uri@, recommendation_id@, name@),
{
    String::from_str(base_path).concat("/").concat(resource_uri).concat(
        "/providers/Microsoft.Advisor/recommendations/",
    ).concat(recommendation_id).concat("/suppressions/").concat(name)
}

/// Fetches one suppression: an authenticated GET answered by 200 with a
/// decoded body.
pub fn get(
    base_path: &str,
    api_version: &str,
    resource_uri: &str,
    recommendation_id: &str,
    name: &str,
) -> (inv: Invocation)
    ensures
        inv.method == HttpMethod::Get,
        inv.url@ == suppression_url(base_path@, resource_uri@, recommendation_id@, name@),
        pair_views(inv.query@) == seq![("api-version"@, api_version@)],
        !inv.has_body,
        inv.requires_auth,
        inv.response_map@ == seq![(StatusMapping { status: 200, kind: PayloadKind::Json })],
{
    Invocation {
        method: HttpMethod::Get,
        url: suppression_url_of(base_path, resource_uri, recommendation_id, name),
        query: api_version_query(api_version),
        has_body: false,
        requires_auth: true,
        response_map: status_map1(200, PayloadKind::Json),
    }
}

/// Creates or replaces one suppression: an authenticated PUT carrying a
/// serialized body, answered by 200 with a decoded body.
pub fn create(
    base_path: &str,
    api_version: &str,
    resource_uri: &str,
    recommendation_id: &str,
    name: &str,
) -> (inv: Invocation)
    ensures
        inv.method == HttpMethod::Put,
        inv.url@ == suppression_url(base_path@, resource_uri@, recommendation_id@, name@),
        pair_views(inv.query@) == seq![("api-version"@, api_version@)],
        inv.has_body,
        inv.requires_auth,
        inv.response_map@ == seq![(StatusMapping { status: 200, kind: PayloadKind::Json })],
{
    Invocation {
        method: HttpMethod::Put,
        url: suppression_url_of(base_path, resource_uri, recommendation_id, name),
        query: api_version_query(api_version),
        has_body: true,
        requires_auth: true,
        response_map: status_map1(200, PayloadKind::Json),
    }
}

/// Deletes one suppression: an authenticated DELETE answered by a bodyless
/// 204 alone.
pub fn delete(
    base_path: &str,
    api_version: &str,
    resource_uri: &str,
    recommendation_id: &str,
    name: &str,
) -> (inv: Invocation)
    ensures
        inv.method == HttpMethod::Delete,
        inv.url@ == suppression_url(base_path@, resource_uri@, recommendation_id@, name@),
        pair_views(inv.query@) == seq![("api-version"@, api_version@)],
        !inv.has_body,
        inv.requires_auth,
        inv.response_map@ == seq![(StatusMapping { status: 204, kind: PayloadKind::Empty })],
{
    Invocation {
        method: HttpMethod::Delete,
        url: suppression_url_of(base_path, resource_uri, recommendation_id, name),
        query: api_version_query(api_version),
        has_body: false,
        requires_auth: true,
        response_map: status_map1(204, PayloadKind::Empty),
    }
}

/// Lists the suppressions of a subscription: an authenticated GET answered
/// by 200 with a decoded body.
pub fn list(base_path: &str, api_version: &str, subscription_id: &str) -> (inv: Invocation)
    ensures
        inv.method == HttpMethod::Get,
        inv.url@ == base_path@ + "/subscriptions/"@ + subscription_id@
            + "/providers/Microsoft.Advisor/suppressions"@,
        pair_views(inv.query@) == seq![("api-version"@, api_version@)],
        !inv.has_body,
        inv.requires_auth,
        inv.response_map@ == seq![(StatusMapping { status: 200, kind: PayloadKind::Json })],
{
    let url = String::from_str(base_path).concat("/subscriptions/").concat(
        subscription_id,
    ).concat("/providers/Microsoft.Advisor/suppressions");
    Invocation {
        method: HttpMethod::Get,
        url,
        query: api_version_query(api_version),
        has_body: false,
        requires_auth: true,
        response_map: status_map1(200, PayloadKind::Json),
    }
}

} // verus!
