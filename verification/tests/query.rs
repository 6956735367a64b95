use stellarium_bridge::stellarium::{
    get_object, reads_body, request_url, Reply, StellariumError, StellariumObject, STATUS_NOT_FOUND,
    STATUS_OK,
};
use stellarium_bridge::text::decimal_string;

fn sample(name: &str, above_horizon: bool) -> StellariumObject {
    StellariumObject {
        above_horizon,
        localized_name: format!("{} (localized)", name),
        name: name.to_string(),
        object_type: "planet".to_string(),
        altitude: format!("{:.3}", 45.1f64),
        azimuth: format!("{:.3}", 123.456789f64),
    }
}

#[test]
fn visible_object_is_returned_unchanged() {
    let object = sample("Mars", true);
    let reply = Reply::Status { code: 200, body: Some(object.clone()) };
    assert_eq!(get_object(8090, reply), Ok(object));
}

#[test]
fn object_below_horizon_is_rejected() {
    let reply = Reply::Status { code: 200, body: Some(sample("Mars", false)) };
    assert_eq!(get_object(8090, reply), Err(StellariumError::ObjectNotAboveHorizon));
    let other = StellariumObject {
        above_horizon: false,
        localized_name: String::new(),
        name: String::new(),
        object_type: String::new(),
        altitude: "-12.000".to_string(),
        azimuth: "0.000".to_string(),
    };
    let reply = Reply::Status { code: 200, body: Some(other) };
    assert_eq!(get_object(1, reply), Err(StellariumError::ObjectNotAboveHorizon));
}

#[test]
fn undecodable_body_is_a_parse_error() {
    let reply = Reply::Status { code: 200, body: None };
    assert_eq!(get_object(8090, reply), Err(StellariumError::UnableToParseError));
}

#[test]
fn not_found_means_nothing_selected() {
    let reply = Reply::Status { code: 404, body: None };
    assert_eq!(get_object(8090, reply), Err(StellariumError::ObjectNotFoundError));
    let reply = Reply::Status { code: 404, body: Some(sample("Mars", true)) };
    assert_eq!(get_object(8090, reply), Err(StellariumError::ObjectNotFoundError));
}

#[test]
fn other_statuses_are_unexpected() {
    for code in [0u16, 100, 199, 201, 204, 301, 400, 403, 405, 500, 503, 65535] {
        let reply = Reply::Status { code, body: None };
        assert_eq!(get_object(8090, reply), Err(StellariumError::UnexpectedError));
        let reply = Reply::Status { code, body: Some(sample("Mars", true)) };
        assert_eq!(get_object(8090, reply), Err(StellariumError::UnexpectedError));
    }
}

#[test]
fn unreachable_host_carries_the_port() {
    assert_eq!(
        get_object(8090, Reply::Unreachable),
        Err(StellariumError::RequestError { port: 8090 })
    );
    assert_eq!(get_object(0, Reply::Unreachable), Err(StellariumError::RequestError { port: 0 }));
    assert_eq!(
        get_object(65535, Reply::Unreachable),
        Err(StellariumError::RequestError { port: 65535 })
    );
}

#[test]
fn only_success_has_a_body_to_decode() {
    assert_eq!(STATUS_OK, 200);
    assert_eq!(STATUS_NOT_FOUND, 404);
    assert!(reads_body(200));
    assert!(!reads_body(404));
    assert!(!reads_body(201));
    assert!(!reads_body(0));
}

#[test]
fn request_url_names_the_port() {
    assert_eq!(request_url(8090), "http://localhost:8090/api/objects/info?format=json");
    assert_eq!(request_url(0), "http://localhost:0/api/objects/info?format=json");
    assert_eq!(request_url(65535), "http://localhost:65535/api/objects/info?format=json");
}

#[test]
fn error_messages() {
    assert_eq!(
        StellariumError::RequestError { port: 8090 }.message(),
        "Could not get information about the selected object. Check if Stellarium's Remote Control is running on port 8090"
    );
    assert_eq!(StellariumError::UnexpectedError.message(), "Uh oh! Something unexpected happened.");
    assert_eq!(StellariumError::ObjectNotFoundError.message(), "Select an object on Stellarium!");
    assert_eq!(
        StellariumError::UnableToParseError.message(),
        "Could not parse response from Stellarium's Remote Control API"
    );
    assert_eq!(
        StellariumError::ObjectNotAboveHorizon.message(),
        "The selected object cannot be tracked because it is not above the horizon. Please, select another object"
    );
}

#[test]
fn only_two_errors_are_recoverable() {
    assert!(StellariumError::ObjectNotFoundError.recoverable());
    assert!(StellariumError::ObjectNotAboveHorizon.recoverable());
    assert!(!StellariumError::RequestError { port: 8090 }.recoverable());
    assert!(!StellariumError::UnexpectedError.recoverable());
    assert!(!StellariumError::UnableToParseError.recoverable());
}

#[test]
fn decimal_numerals() {
    assert_eq!(decimal_string(0), "0");
    assert_eq!(decimal_string(7), "7");
    assert_eq!(decimal_string(10), "10");
    assert_eq!(decimal_string(909), "909");
    assert_eq!(decimal_string(65535), "65535");
    assert_eq!(decimal_string(u64::MAX), "18446744073709551615");
    for n in [1u64, 9, 11, 99, 100, 101, 1000, 12345, 4294967296] {
        assert_eq!(decimal_string(n), n.to_string());
    }
}
