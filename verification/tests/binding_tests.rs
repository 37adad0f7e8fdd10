use restgen::advisor::recommendations;
use restgen::advisor::suppressions;
use restgen::binding::{
    start, step, BindingAction, BindingError, BindingEvent, BindingState, HttpMethod, Invocation,
    PayloadKind, StatusMapping,
};
use restgen::compute::container_services;

fn demo_map() -> Vec<StatusMapping> {
    vec![
        StatusMapping { status: 200, kind: PayloadKind::Json },
        StatusMapping { status: 202, kind: PayloadKind::Empty },
    ]
}

#[test]
fn mapped_json_status_decodes_then_succeeds() {
    let state = BindingState::AwaitingResponse { response_map: demo_map() };
    let body = b"{\"value\":1}".to_vec();
    let (state, action) = step(
        state,
        BindingEvent::ResponseArrived { status: 200, body: body.clone() },
    );
    match &action {
        BindingAction::DecodeBody { status, body: asked } => {
            assert_eq!(*status, 200);
            assert_eq!(*asked, body);
        }
        other => panic!("expected a decode action, got {:?}", other),
    }
    let (state, action) = step(state, BindingEvent::BodyDecoded);
    assert!(matches!(action, BindingAction::Stop));
    match state {
        BindingState::Finished { result } => assert_eq!(result, Ok(200)),
        other => panic!("expected a finished machine, got {:?}", other),
    }
}

#[test]
fn mapped_empty_status_succeeds_at_once() {
    let state = BindingState::AwaitingResponse { response_map: demo_map() };
    let (state, action) = step(
        state,
        BindingEvent::ResponseArrived { status: 202, body: Vec::new() },
    );
    assert!(matches!(action, BindingAction::Stop));
    match state {
        BindingState::Finished { result } => assert_eq!(result, Ok(202)),
        other => panic!("expected a finished machine, got {:?}", other),
    }
}

#[test]
fn unmapped_status_carries_raw_body() {
    let state = BindingState::AwaitingResponse { response_map: demo_map() };
    let body = b"not found".to_vec();
    let (state, action) = step(
        state,
        BindingEvent::ResponseArrived { status: 404, body: body.clone() },
    );
    assert!(matches!(action, BindingAction::Stop));
    match state {
        BindingState::Finished { result } => {
            assert_eq!(
                result,
                Err(BindingError::UnexpectedStatus { status_code: 404, body })
            );
        }
        other => panic!("expected a finished machine, got {:?}", other),
    }
}

#[test]
fn undecodable_body_fails_with_the_body() {
    let state = BindingState::AwaitingResponse { response_map: demo_map() };
    let body = b"not json".to_vec();
    let (state, _) = step(
        state,
        BindingEvent::ResponseArrived { status: 200, body: body.clone() },
    );
    let cause = String::from("expected value at line 1 column 1");
    let (state, action) = step(
        state,
        BindingEvent::BodyUndecodable { cause: cause.clone() },
    );
    assert!(matches!(action, BindingAction::Stop));
    match state {
        BindingState::Finished { result } => {
            assert_eq!(
                result,
                Err(BindingError::ResponseDeserializationFailure { cause, body })
            );
        }
        other => panic!("expected a finished machine, got {:?}", other),
    }
}

#[test]
fn status_lookup_is_exact_match_only() {
    let map = vec![StatusMapping { status: 200, kind: PayloadKind::Empty }];
    let state = BindingState::AwaitingResponse { response_map: map };
    let (state, _) = step(
        state,
        BindingEvent::ResponseArrived { status: 201, body: Vec::new() },
    );
    match state {
        BindingState::Finished { result } => {
            assert_eq!(
                result,
                Err(BindingError::UnexpectedStatus { status_code: 201, body: Vec::new() })
            );
        }
        other => panic!("expected a finished machine, got {:?}", other),
    }
}

#[test]
fn auth_failure_short_circuits_before_dispatch() {
    let inv = recommendations::generate("https://management.azure.com", "2017-03-31", "sub1");
    let (state, action) = start(inv);
    assert!(matches!(action, BindingAction::AcquireToken));
    let (state, action) = step(state, BindingEvent::TokenDenied);
    assert!(matches!(action, BindingAction::Stop));
    assert!(!matches!(action, BindingAction::Execute { .. }));
    match state {
        BindingState::Finished { result } => {
            assert_eq!(result, Err(BindingError::TokenAcquisitionFailure));
        }
        other => panic!("expected a finished machine, got {:?}", other),
    }
}

#[test]
fn invalid_url_fails_before_everything_else() {
    let inv = Invocation {
        method: HttpMethod::Get,
        url: String::from("no scheme at all"),
        query: Vec::new(),
        has_body: false,
        requires_auth: true,
        response_map: Vec::new(),
    };
    let (state, action) = start(inv);
    assert!(matches!(action, BindingAction::Stop));
    match state {
        BindingState::Finished { result } => {
            assert_eq!(result, Err(BindingError::UrlParseFailure));
        }
        other => panic!("expected a finished machine, got {:?}", other),
    }
}

#[test]
fn bodyless_post_carries_auth_and_zero_length() {
    let inv = recommendations::generate("https://management.azure.com", "2017-03-31", "sub1");
    let (state, action) = start(inv);
    assert!(matches!(action, BindingAction::AcquireToken));
    let (_, action) = step(
        state,
        BindingEvent::TokenAcquired { token: String::from("tok") },
    );
    match action {
        BindingAction::Execute { request } => {
            assert!(matches!(request.method, HttpMethod::Post));
            assert_eq!(
                request.url,
                "https://management.azure.com/subscriptions/sub1/providers/Microsoft.Advisor/generateRecommendations?api-version=2017-03-31"
            );
            assert!(request.headers.contains(&(
                String::from("authorization"),
                String::from("Bearer tok")
            )));
            assert!(request.headers.contains(&(String::from("content-length"), String::from("0"))));
            assert!(request.body.is_empty());
        }
        other => panic!("expected an execute action, got {:?}", other),
    }
}

#[test]
fn body_is_serialized_after_token_and_sent() {
    let inv = suppressions::create(
        "https://management.azure.com",
        "2017-03-31",
        "subscriptions/sub1",
        "rec1",
        "supp1",
    );
    let (state, action) = start(inv);
    assert!(matches!(action, BindingAction::AcquireToken));
    let (state, action) = step(
        state,
        BindingEvent::TokenAcquired { token: String::from("tok") },
    );
    assert!(matches!(action, BindingAction::SerializeBody));
    let payload = b"{\"ttl\":\"7days\"}".to_vec();
    let (_, action) = step(
        state,
        BindingEvent::BodySerialized { bytes: payload.clone() },
    );
    match action {
        BindingAction::Execute { request } => {
            assert!(matches!(request.method, HttpMethod::Put));
            assert_eq!(request.body, payload);
            assert!(request.headers.contains(&(
                String::from("content-type"),
                String::from("application/json")
            )));
            assert!(request.headers.contains(&(
                String::from("content-length"),
                String::from("15")
            )));
            assert!(request.url.ends_with("?api-version=2017-03-31"));
        }
        other => panic!("expected an execute action, got {:?}", other),
    }
}

#[test]
fn dispatched_url_carries_the_query_pairs_in_order() {
    let inv = recommendations::list(
        "https://management.azure.com",
        "2017-03-31",
        "sub1",
        Some("x"),
        Some(25),
        Some("t0"),
    );
    let (state, action) = start(inv);
    assert!(matches!(action, BindingAction::AcquireToken));
    let (_, action) = step(
        state,
        BindingEvent::TokenAcquired { token: String::from("tok") },
    );
    match action {
        BindingAction::Execute { request } => {
            assert_eq!(
                request.url,
                "https://management.azure.com/subscriptions/sub1/providers/Microsoft.Advisor/recommendations?api-version=2017-03-31&%24filter=x&%24top=25&%24skipToken=t0"
            );
        }
        other => panic!("expected an execute action, got {:?}", other),
    }
}

#[test]
fn transport_failure_is_its_own_kind() {
    let state = BindingState::AwaitingResponse { response_map: demo_map() };
    let (state, _) = step(state, BindingEvent::TransportFailed);
    match state {
        BindingState::Finished { result } => {
            assert_eq!(result, Err(BindingError::RequestExecutionFailure));
        }
        other => panic!("expected a finished machine, got {:?}", other),
    }
}

#[test]
fn request_build_failure_is_its_own_kind() {
    let state = BindingState::AwaitingResponse { response_map: demo_map() };
    let (state, _) = step(state, BindingEvent::RequestRejected);
    match state {
        BindingState::Finished { result } => {
            assert_eq!(result, Err(BindingError::RequestBuildFailure));
        }
        other => panic!("expected a finished machine, got {:?}", other),
    }
}

#[test]
fn rejected_body_is_its_own_kind() {
    let inv = suppressions::create("https://management.azure.com", "v", "r", "rec", "s");
    let (state, _) = start(inv);
    let (state, _) = step(
        state,
        BindingEvent::TokenAcquired { token: String::from("tok") },
    );
    let (state, _) = step(state, BindingEvent::BodyRejected);
    match state {
        BindingState::Finished { result } => {
            assert_eq!(result, Err(BindingError::RequestSerializationFailure));
        }
        other => panic!("expected a finished machine, got {:?}", other),
    }
}

#[test]
fn delete_maps_its_bodyless_answers() {
    let inv = container_services::delete(
        "https://management.azure.com",
        "2016-03-30",
        "group1",
        "svc1",
        "sub1",
    );
    let (state, _) = start(inv);
    let (state, _) = step(
        state,
        BindingEvent::TokenAcquired { token: String::from("tok") },
    );
    let (state, _) = step(
        state,
        BindingEvent::ResponseArrived { status: 204, body: Vec::new() },
    );
    match state {
        BindingState::Finished { result } => {
            let status = result.unwrap();
            assert_eq!(status, 204);
            assert_eq!(
                container_services::Response::of_status(status),
                Some(container_services::Response::NoContent204)
            );
        }
        other => panic!("expected a finished machine, got {:?}", other),
    }
}

#[test]
fn generate_status_answers_map_to_variants() {
    assert_eq!(
        recommendations::Response::of_status(202),
        Some(recommendations::Response::Accepted202)
    );
    assert_eq!(
        recommendations::Response::of_status(204),
        Some(recommendations::Response::NoContent204)
    );
    assert_eq!(recommendations::Response::of_status(200), None);
}
