use ascot::parameters::ParametersValues;
use ascot::response::{
    invalid_data, Body, ErrorKind, ErrorResponse, Headers, OkResponse, Response, RouteParameters,
    SerialResponse,
};

#[test]
fn error_responses() {
    let response = ErrorResponse::with_description(ErrorKind::Internal, "broken");
    assert_eq!(response.error, ErrorKind::Internal);
    assert_eq!(response.description, "broken");
    assert!(response.info.is_none());
    let response = ErrorResponse::invalid_data_with_error("bad input", "not a number");
    assert_eq!(response.error, ErrorKind::InvalidData);
    assert_eq!(response.info.as_deref(), Some("not a number"));
    let response = ErrorResponse::internal_with_error("failed", "disk");
    assert_eq!(response.error, ErrorKind::Internal);
    assert_eq!(response.description, "failed");
    assert_eq!(ErrorResponse::internal("x").error, ErrorKind::Internal);
    assert_eq!(ErrorResponse::invalid_data("y").error, ErrorKind::InvalidData);
    assert_eq!(invalid_data("z").description, "z");
    let response = ErrorResponse::with_description_error(ErrorKind::InvalidData, "d", "i");
    assert_eq!(response.info.as_deref(), Some("i"));
}

#[test]
fn ok_and_serial_responses() {
    assert_eq!(OkResponse::ok(), OkResponse);
    assert_eq!(SerialResponse::new(5u8).data, 5);
}

#[test]
fn headers() {
    let headers = Headers::not_found();
    assert_eq!((headers.status, headers.message, headers.content_type), (404, "Not Found", None));
    let headers = Headers::not_allowed();
    assert_eq!((headers.status, headers.message), (405, "Method Not Allowed"));
    let headers = Headers::json();
    assert_eq!((headers.status, headers.message, headers.content_type), (200, "Ok", Some("application/json")));
    let headers = Headers::json_error();
    assert_eq!((headers.status, headers.message, headers.content_type), (500, "Error", Some("application/json")));
}

#[test]
fn responses() {
    let response = Response::not_allowed();
    assert_eq!(response.headers.status, 405);
    assert_eq!(response.body.0, b"Method not allowed");
    let response = Response::not_found();
    assert_eq!(response.headers.status, 404);
    assert!(response.body.0.is_empty());
    assert!(Body::empty().0.is_empty());
    assert_eq!(Body::owned(vec![1, 2]).0, vec![1, 2]);
    assert_eq!(Body::static_ref(b"ok").0, b"ok");
    let ok = Response::new(Headers::json(), Body::owned(b"{}".to_vec()));
    assert_eq!(Response::from_result(Ok(ok)).headers.status, 200);
    assert_eq!(Response::from_result(Err(Response::not_found())).headers.status, 404);
}

#[test]
fn route_parameters_by_name_and_kind() {
    let mut values = ParametersValues::new();
    values.bool("on", true);
    values.u8("level", 3);
    values.characters_sequence("name", "lamp".into());
    let parameters = RouteParameters(values);
    assert!(parameters.bool("on").unwrap());
    assert_eq!(parameters.u8("level").unwrap(), 3);
    assert_eq!(parameters.chars_sequence("name").unwrap(), "lamp");
    let error = parameters.u16("level").unwrap_err();
    assert_eq!(error.error, ErrorKind::InvalidData);
    assert_eq!(error.description, "`level` is not a u16 kind");
    let error = parameters.u32("missing").unwrap_err();
    assert_eq!(error.description, "`missing` not found.");
    let error = parameters.chars_sequence("on").unwrap_err();
    assert_eq!(error.description, "`on` is not a chars sequence");
    assert!(parameters.u64("level").is_err());
    assert!(parameters.f32_bits("level").is_err());
    assert!(parameters.f64_bits("level").is_err());
}
