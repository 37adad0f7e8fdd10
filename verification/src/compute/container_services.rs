//! Container-service operations: listing, fetching, creating or updating
//! and deleting container services.

use vstd::prelude::*;
use vstd::string::*;
use crate::binding::{
    api_version_query, pair_views, status_map1, status_map2, status_map3, HttpMethod, Invocation,
    PayloadKind, StatusMapping,
};

verus! {

/// The bodyless success answers of the delete operation.
#[derive(Debug, Clone, Copy, PartialEq, Eq, Structural)]
pub enum Response {
    Accepted202,
    NoContent204,
}

impl Response {
    /// The success variant a matched status code stands for.
    pub fn of_status(status: u16) -> (r: Option<Response>)
        ensures
            r == (if status == 202 {
                Some(Response::Accepted202)
            } else if status == 204 {
                Some(Response::NoContent204)
            } else {
                None::<Response>
            }),
    {
        if status == 202 {
            Some(Response::Accepted202)
        } else if status == 204 {
            Some(Response::NoContent204)
        } else {
            None
        }
    }
}

/// The URL addressing one container service.
pub open spec fn service_url(
    base_path: Seq<char>,
    subscription_id: Seq<char>,
    resource_group_name: Seq<char>,
    container_service_name: Seq<char>,
) -> Seq<char> {
    base_path + "/subscriptions/"@ + subscription_id + "/resourceGroups/"@ + resource_group_name
        + "/providers/Microsoft.ContainerService/containerServices/"@ + container_service_name
}

/// Builds the URL of one container service.
fn service_url_of(
    base_path: &str,
    subscription_id: &str,
    resource_group_name: &str,
    container_service_name: &str,
) -> (r: String)
    ensures
        r@ == service_url(
            base_path@,
            subscription_id@,
            resource_group_name@,
            container_service_name@,
        ),
{
    String::from_str(base_path).concat("/subscriptions/").concat(subscription_id).concat(
        "/resourceGroups/",
    ).concat(resource_group_name).concat(
        "/providers/Microsoft.ContainerService/containerServices/",
    ).concat(container_service_name)
}

/// Lists the container services of a subscription: an authenticated GET
/// answered by 200 with a decoded body.
pub fn list(base_path: &str, api_version: &str, subscription_id: &str) -> (inv: Invocation)
    ensures
        inv.method == HttpMethod::Get,
        inv.url@ == base_path@ + "/subscriptions/"@ + subscription_id@
            + "/providers/Microsoft.ContainerService/containerServices"@,
        pair_views(inv.query@) == seq![("api-version"@, api_version@)],
        !inv.has_body,
        inv.requires_auth,
        inv.response_map@ == seq![(StatusMapping { status: 200, kind: PayloadKind::Json })],
{
    let url = String::from_str(base_path).concat("/subscriptions/").concat(
        subscription_id,
    ).concat("/providers/Microsoft.ContainerService/containerServices");
    Invocation {
        method: HttpMethod::Get,
        url,
        query: api_version_query(api_version),
        has_body: false,
        requires_auth: true,
        response_map: status_map1(200, PayloadKind::Json),
    }
}

/// Fetches one container service: an authenticated GET answered by 200
/// with a decoded body.
pub fn get(
    base_path: &str,
    api_version: &str,
    resource_group_name: &str,
    container_service_name: &str,
    subscription_id: &str,
) -> (inv: Invocation)
    ensures
        inv.method == HttpMethod::Get,
        inv.url@ == service_url(
            base_path@,
            subscription_id@,
            resource_group_name@,
            container_service_name@,
        ),
        pair_views(inv.query@) == seq![("api-version"@, api_version@)],
        !inv.has_body,
        inv.requires_auth,
        inv.response_map@ == seq![(StatusMapping { status: 200, kind: PayloadKind::Json })],
{
    Invocation {
        method: HttpMethod::Get,
        url: service_url_of(base_path, subscription_id, resource_group_name,
            container_service_name),
        query: api_version_query(api_version),
        has_body: false,
        requires_auth: true,
        response_map: status_map1(200, PayloadKind::Json),
    }
}

/// Creates or updates one container service: an authenticated PUT carrying
/// a serialized body, answered by 200, 201 or 202, each with a decoded
/// body.
pub fn create_or_update(
    base_path: &str,
    api_version: &str,
    resource_group_name: &str,
    container_service_name: &str,
    subscription_id: &str,
) -> (inv: Invocation)
    ensures
        inv.method == HttpMethod::Put,
        inv.url@ == service_url(
            base_path@,
            subscription_id@,
            resource_group_name@,
            container_service_name@,
        ),
        pair_views(inv.query@) == seq![("api-version"@, api_version@)],
        inv.has_body,
        inv.requires_auth,
        inv.response_map@ == seq![
            (StatusMapping { status: 200, kind: PayloadKind::Json }),
            (StatusMapping { status: 201, kind: PayloadKind::Json }),
            (StatusMapping { status: 202, kind: PayloadKind::Json }),
        ],
{
    Invocation {
        method: HttpMethod::Put,
        url: service_url_of(base_path, subscription_id, resource_group_name,
            container_service_name),
        query: api_version_query(api_version),
        has_body: true,
        requires_auth: true,
        response_map: status_map3(
            200,
            PayloadKind::Json,
            201,
            PayloadKind::Json,
            202,
            PayloadKind::Json,
        ),
    }
}

/// Deletes one container service: an authenticated DELETE answered by a
/// bodyless 202 or 204.
pub fn delete(
    base_path: &str,
    api_version: &str,
    resource_group_name: &str,
    container_service_name: &str,
    subscription_id: &str,
) -> (inv: Invocation)
    ensures
        inv.method == HttpMethod::Delete,
        inv.url@ == service_url(
            base_path@,
            subscription_id@,
            resource_group_name@,
            container_service_name@,
        ),
        pair_views(inv.query@) == seq![("api-version"@, api_version@)],
        !inv.has_body,
        inv.requires_auth,
        inv.response_map@ == seq![
            (StatusMapping { status: 202, kind: PayloadKind::Empty }),
            (StatusMapping { status: 204, kind: PayloadKind::Empty }),
        ],
{
    Invocation {
        method: HttpMethod::Delete,
        url: service_url_of(base_path, subscription_id, resource_group_name,
            container_service_name),
        query: api_version_query(api_version),
        has_body: false,
        requires_auth: true,
        response_map: status_map2(202, PayloadKind::Empty, 204, PayloadKind::Empty),
    }
}

/// Lists the container services of a resource group: an authenticated GET
/// answered by 200 with a decoded body.
pub fn list_by_resource_group(
    base_path: &str,
    api_version: &str,
    resource_group_name: &str,
    subscription_id: &str,
) -> (inv: Invocation)
    ensures
        inv.method == HttpMethod::Get,
        inv.url@ == base_path@ + "/subscriptions/"@ + subscription_id@ + "/resourceGroups/"@
            + resource_group_name@ + "/providers/Microsoft.ContainerService/containerServices"@,
        pair_views(inv.query@) == seq![("api-version"@, api_version@)],
        !inv.has_body,
        inv.requires_auth,
        inv.response_map@ == seq![(StatusMapping { status: 200, kind: PayloadKind::Json })],
{
    let url = String::from_str(base_path).concat("/subscriptions/").concat(
        subscription_id,
    ).concat("/resourceGroups/").concat(resource_group_name).concat(
        "/providers/Microsoft.ContainerService/containerServices",
    );
    Invocation {
        method: HttpMethod::Get,
        url,
        query: api_version_query(api_version),
        has_body: false,
        requires_auth: true,
        response_map: status_map1(200, PayloadKind::Json),
    }
}

} // verus!
