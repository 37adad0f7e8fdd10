use restgen::advisor::{operations, recommendations, suppressions};
use restgen::binding::{HttpMethod, PayloadKind};
use restgen::compute::container_services;

const BASE: &str = "https://management.azure.com";
const API: &str = "2017-03-31";

#[test]
fn generate_invocation_shape() {
    let inv = recommendations::generate(BASE, API, "sub1");
    assert!(matches!(inv.method, HttpMethod::Post));
    assert_eq!(
        inv.url,
        "https://management.azure.com/subscriptions/sub1/providers/Microsoft.Advisor/generateRecommendations"
    );
    assert_eq!(inv.query, vec![(String::from("api-version"), String::from(API))]);
    assert!(!inv.has_body);
    assert!(inv.requires_auth);
    assert_eq!(inv.response_map.len(), 1);
    assert_eq!(inv.response_map[0].status, 202);
    assert!(matches!(inv.response_map[0].kind, PayloadKind::Empty));
}

#[test]
fn generate_status_invocation_shape() {
    let inv = recommendations::get_generate_status(BASE, API, "sub1", "op7");
    assert!(matches!(inv.method, HttpMethod::Get));
    assert_eq!(
        inv.url,
        "https://management.azure.com/subscriptions/sub1/providers/Microsoft.Advisor/generateRecommendations/op7"
    );
    assert_eq!(inv.response_map.len(), 2);
    assert_eq!(inv.response_map[0].status, 202);
    assert_eq!(inv.response_map[1].status, 204);
}

#[test]
fn list_omits_absent_optional_parameters() {
    let inv = recommendations::list(BASE, API, "sub1", None, None, None);
    assert_eq!(inv.query, vec![(String::from("api-version"), String::from(API))]);
}

#[test]
fn list_appends_present_optional_parameters_in_order() {
    let inv = recommendations::list(BASE, API, "sub1", Some("cat eq 'Cost'"), Some(25), Some("t0"));
    assert_eq!(
        inv.query,
        vec![
            (String::from("api-version"), String::from(API)),
            (String::from("$filter"), String::from("cat eq 'Cost'")),
            (String::from("$top"), String::from("25")),
            (String::from("$skipToken"), String::from("t0")),
        ]
    );
}

#[test]
fn list_renders_negative_page_sizes_too() {
    let inv = recommendations::list(BASE, API, "sub1", None, Some(-3), None);
    assert_eq!(
        inv.query,
        vec![
            (String::from("api-version"), String::from(API)),
            (String::from("$top"), String::from("-3")),
        ]
    );
}

#[test]
fn recommendation_get_url() {
    let inv = recommendations::get(BASE, API, "subscriptions/sub1/resourceGroups/rg", "rec9");
    assert_eq!(
        inv.url,
        "https://management.azure.com/subscriptions/sub1/resourceGroups/rg/providers/Microsoft.Advisor/recommendations/rec9"
    );
    assert!(!inv.has_body);
}

#[test]
fn operations_list_url() {
    let inv = operations::list(BASE, API);
    assert_eq!(inv.url, "https://management.azure.com/providers/Microsoft.Advisor/operations");
    assert_eq!(inv.response_map[0].status, 200);
}

#[test]
fn suppression_urls_share_one_shape() {
    let get = suppressions::get(BASE, API, "res", "rec", "sup");
    let create = suppressions::create(BASE, API, "res", "rec", "sup");
    let delete = suppressions::delete(BASE, API, "res", "rec", "sup");
    let expected =
        "https://management.azure.com/res/providers/Microsoft.Advisor/recommendations/rec/suppressions/sup";
    assert_eq!(get.url, expected);
    assert_eq!(create.url, expected);
    assert_eq!(delete.url, expected);
    assert!(matches!(get.method, HttpMethod::Get));
    assert!(matches!(create.method, HttpMethod::Put));
    assert!(matches!(delete.method, HttpMethod::Delete));
    assert!(create.has_body);
    assert!(!get.has_body);
    assert_eq!(delete.response_map[0].status, 204);
}

#[test]
fn suppressions_list_url() {
    let inv = suppressions::list(BASE, API, "sub1");
    assert_eq!(
        inv.url,
        "https://management.azure.com/subscriptions/sub1/providers/Microsoft.Advisor/suppressions"
    );
}

#[test]
fn container_service_urls() {
    let api = "2016-03-30";
    let list = container_services::list(BASE, api, "sub1");
    assert_eq!(
        list.url,
        "https://management.azure.com/subscriptions/sub1/providers/Microsoft.ContainerService/containerServices"
    );
    let by_group = container_services::list_by_resource_group(BASE, api, "rg1", "sub1");
    assert_eq!(
        by_group.url,
        "https://management.azure.com/subscriptions/sub1/resourceGroups/rg1/providers/Microsoft.ContainerService/containerServices"
    );
    let get = container_services::get(BASE, api, "rg1", "svc1", "sub1");
    assert_eq!(
        get.url,
        "https://management.azure.com/subscriptions/sub1/resourceGroups/rg1/providers/Microsoft.ContainerService/containerServices/svc1"
    );
}

#[test]
fn create_or_update_maps_three_json_answers() {
    let inv = container_services::create_or_update(BASE, "2016-03-30", "rg1", "svc1", "sub1");
    assert!(matches!(inv.method, HttpMethod::Put));
    assert!(inv.has_body);
    let statuses: Vec<u16> = inv.response_map.iter().map(|m| m.status).collect();
    assert_eq!(statuses, vec![200, 201, 202]);
    assert!(inv.response_map.iter().all(|m| matches!(m.kind, PayloadKind::Json)));
}
