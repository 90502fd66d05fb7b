use user_crud::response::{
    failed, found, listed, rejected, server_error, Body, Config, Response, Signaling,
    STATUS_BAD_REQUEST, STATUS_NOT_FOUND, STATUS_OK, STATUS_SERVER_ERROR,
};
use user_crud::store::StoreFailure;
use user_crud::integer_keyed::User;

fn ada() -> User {
    User { firstname: "Ada".to_string(), lastname: "Lovelace".to_string() }
}

#[test]
fn status_codes() {
    assert_eq!(STATUS_OK, 200);
    assert_eq!(STATUS_BAD_REQUEST, 400);
    assert_eq!(STATUS_NOT_FOUND, 404);
    assert_eq!(STATUS_SERVER_ERROR, 500);
}

#[test]
fn new_deployments_default_to_corrected_signaling() {
    assert_eq!(Signaling::default(), Signaling::Corrected);
}

#[test]
fn config_keeps_what_it_was_given() {
    let config = Config::new(Signaling::Compatible, "user name is required");
    assert_eq!(config.signaling, Signaling::Compatible);
    assert_eq!(config.rejection, "user name is required");
}

#[test]
fn rejection_is_a_success_when_compatible() {
    let response: Response<User> = rejected(Signaling::Compatible, "name required".to_string());
    assert_eq!(response.status, 200);
    assert_eq!(response.body, Body::Text("name required".to_string()));
}

#[test]
fn rejection_is_a_client_error_when_corrected() {
    let response: Response<User> = rejected(Signaling::Corrected, "name required".to_string());
    assert_eq!(response.status, 400);
    assert_eq!(response.body, Body::Text("name required".to_string()));
}

#[test]
fn store_error_is_a_server_error_either_way() {
    for signaling in [Signaling::Compatible, Signaling::Corrected] {
        let response: Response<User> =
            failed(signaling, StoreFailure::TransientStoreError, "Failed to get user");
        assert_eq!(response.status, 500);
        assert_eq!(response.body, Body::Message("Failed to get user".to_string()));
    }
}

#[test]
fn missing_resource_is_collapsed_when_compatible() {
    let response: Response<User> =
        failed(Signaling::Compatible, StoreFailure::NoSuchResource, "Failed to get user");
    assert_eq!(response.status, 500);
    assert_eq!(response.body, Body::Message("Failed to get user".to_string()));
}

#[test]
fn missing_resource_is_not_found_when_corrected() {
    let response: Response<User> =
        failed(Signaling::Corrected, StoreFailure::NoSuchResource, "Failed to get user");
    assert_eq!(response.status, 404);
    assert_eq!(response.body, Body::Message("Failed to get user".to_string()));
}

#[test]
fn server_error_carries_the_message() {
    let response: Response<User> = server_error("Failed to create user");
    assert_eq!(response.status, 500);
    assert_eq!(response.body, Body::Message("Failed to create user".to_string()));
}

#[test]
fn found_carries_the_record() {
    let response = found(ada());
    assert_eq!(response.status, 200);
    assert_eq!(response.body, Body::One(ada()));
}

#[test]
fn listed_carries_the_records_in_order() {
    let grace = User { firstname: "Grace".to_string(), lastname: "Hopper".to_string() };
    let response = listed(vec![ada(), grace.clone()]);
    assert_eq!(response.status, 200);
    assert_eq!(response.body, Body::Many(vec![ada(), grace]));
}

#[test]
fn listed_nothing_is_an_empty_sequence() {
    let response: Response<User> = listed(Vec::new());
    assert_eq!(response.status, 200);
    assert_eq!(response.body, Body::Many(Vec::new()));
}
