//! Recommendation operations: triggering recommendation generation,
//! polling its status, and listing or fetching recommendations.

use vstd::prelude::*;
use vstd::string::*;
use crate::binding::{
    api_version_query, opt_int_pair, opt_pair, pair_views, status_map1, status_map2, HttpMethod,
    Invocation, PayloadKind, StatusMapping,
};
use crate::text::i64_to_string;

verus! {

/// The bodyless success answers of the generation-status poll.
#[derive(Debug, Clone, Copy, PartialEq, Eq, Structural)]
pub enum Response {
    Accepted202,
    NoContent204,
}

impl Response {
    /// The success variant a matched status code stands for.
    pub fn of_status(status: u16) -> (r: Option<Response>)
        ensures
            r == (if status == 202 {
                Some(Response::Accepted202)
            } else if status == 204 {
                Some(Response::NoContent204)
            } else {
                None::<Response>
            }),
    {
        if status == 202 {
            Some(Response::Accepted202)
        } else if status == 204 {
            Some(Response::NoContent204)
        } else {
            None
        }
    }
}

/// Triggers recommendation generation for a subscription: an authenticated
/// bodyless POST answered by 202 alone.
pub fn generate(base_path: &str, api_version: &str, subscription_id: &str) -> (inv: Invocation)
    ensures
        inv.method == HttpMethod::Post,
        inv.url@ == base_path@ + "/subscriptions/"@ + subscription_id@
            + "/providers/Microsoft.Advisor/generateRecommendations"@,
        pair_views(inv.query@) == seq![("api-version"@, api_version@)],
        !inv.has_body,
        inv.requires_auth,
        inv.response_map@ == seq![(StatusMapping { status: 202, kind: PayloadKind::Empty })],
{
    let url = String::from_str(base_path).concat("/subscriptions/").concat(
        subscription_id,
    ).concat("/providers/Microsoft.Advisor/generateRecommendations");
    Invocation {
        method: HttpMethod::Post,
        url,
        query: api_version_query(api_version),
        has_body: false,
        requires_auth: true,
        response_map: status_map1(202, PayloadKind::Empty),
    }
}

/// Polls the status of a generation run: an authenticated GET answered by
/// 202 (still running) or 204 (done), both bodyless.
pub fn get_generate_status(
    base_path: &str,
    api_version: &str,
    subscription_id: &str,
    operation_id: &str,
) -> (inv: Invocation)
    ensures
        inv.method == HttpMethod::Get,
        inv.url@ == base_path@ + "/subscriptions/"@ + subscription_id@
            + "/providers/Microsoft.Advisor/generateRecommendations/"@ + operation_id@,
        pair_views(inv.query@) == seq![("api-version"@, api_version@)],
        !inv.has_body,
        inv.requires_auth,
        inv.response_map@ == seq![
            (StatusMapping { status: 202, kind: PayloadKind::Empty }),
            (StatusMapping { status: 204, kind: PayloadKind::Empty }),
        ],
{
    let url = String::from_str(base_path).concat("/subscriptions/").concat(
        subscription_id,
    ).concat("/providers/Microsoft.Advisor/generateRecommendations/").concat(operation_id);
    Invocation {
        method: HttpMethod::Get,
        url,
        query: api_version_query(api_version),
        has_body: false,
        requires_auth: true,
        response_map: status_map2(202, PayloadKind::Empty, 204, PayloadKind::Empty),
    }
}

/// Lists the recommendations of a subscription, with optional filter,
/// page-size and continuation parameters; absent parameters are omitted
/// from the query, not sent empty.
pub fn list(
    base_path: &str,
    api_version: &str,
    subscription_id: &str,
    filter: Option<&str>,
    top: Option<i64>,
    skip_token: Option<&str>,
) -> (inv: Invocation)
    ensures
        inv.method == HttpMethod::Get,
        inv.url@ == base_path@ + "/subscriptions/"@ + subscription_id@
            + "/providers/Microsoft.Advisor/recommendations"@,
        pair_views(inv.query@) == seq![("api-version"@, api_version@)] + opt_pair(
            "$filter"@,
            filter,
        ) + opt_int_pair("$top"@, top) + opt_pair("$skipToken"@, skip_token),
        !inv.has_body,
        inv.requires_auth,
        inv.response_map@ == seq![(StatusMapping { status: 200, kind: PayloadKind::Json })],
{
    let url = String::from_str(base_path).concat("/subscriptions/").concat(
        subscription_id,
    ).concat("/providers/Microsoft.Advisor/recommendations");
    let mut query = api_version_query(api_version);
    if let Some(f) = filter {
        query.push((String::from_str("$filter"), String::from_str(f)));
    }
    if let Some(t) = top {
        query.push((String::from_str("$top"), i64_to_string(t)));
    }
    if let Some(s) = skip_token {
        query.push((String::from_str("$skipToken"), String::from_str(s)));
    }
    proof {
        assert(pair_views(query@) =~= seq![("api-version"@, api_version@)] + opt_pair(
            "$filter"@,
            filter,
        ) + opt_int_pair("$top"@, top) + opt_pair("$skipToken"@, skip_token));
    }
    Invocation {
        method: HttpMethod::Get,
        url,
        query,
        has_body: false,
        requires_auth: true,
        response_map: status_map1(200, PayloadKind::Json),
    }
}

/// Fetches one recommendation of a resource: an authenticated GET answered
/// by 200 with a decoded body.
pub fn get(
    base_path: &str,
    api_version: &str,
    resource_uri: &str,
    recommendation_id: &str,
) -> (inv: Invocation)
    ensures
        inv.method == HttpMethod::Get,
        inv.url@ == base_path@ + "/"@ + resource_uri@
            + "/providers/Microsoft.Advisor/recommendations/"@ + recommendation_id@,
        pair_views(inv.query@) == seq![("api-version"@, api_version@)],
        !inv.has_body,
        inv.requires_auth,
        inv.response_map@ == seq![(StatusMapping { status: 200, kind: PayloadKind::Json })],
{
    let url = String::from_str(base_path).concat("/").concat(resource_uri).concat(
        "/providers/Microsoft.Advisor/recommendations/",
    ).concat(recommendation_id);
    Invocation {
        method: HttpMethod::Get,
        url,
        query: api_version_query(api_version),
        has_body: false,
        requires_auth: true,
        response_map: status_map1(200, PayloadKind::Json),
    }
}

} // verus!
