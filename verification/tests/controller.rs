use ascot::controller::{
    build_get_route, check_parameters, compare_with_kind, parameter_error, server_route, str_type,
    Description, DeviceEnvironment, DeviceKind,
};
use ascot::routing::{RestKind, RouteConfig};
use ascot::error::ErrorKind;
use ascot::parameters::{
    ParameterKind, ParameterValue, Parameters, ParametersData, ParametersValues,
};

#[test]
fn mod_test_build_get_route() {
    let data = Parameters::new()
        .rangeu64_with_default("rangeu64", (0, 20, 1), 5)
        .rangef64("rangef64", (0f64.to_bits(), 20f64.to_bits(), 0.1f64.to_bits()))
        .serialize_data();

    assert_eq!(
        &build_get_route("/route", &data),
        "/route/{rangeu64}/{rangef64}"
    );
}

#[test]
fn get_route_without_parameters_is_the_path() {
    assert_eq!(build_get_route("/on", &Parameters::new().serialize_data()), "/on");
}

#[test]
fn descriptions() {
    let description = Description::new(DeviceKind::Light, DeviceEnvironment::Os, "light/".into());
    assert_eq!(description.kind, DeviceKind::Light);
    assert_eq!(description.environment, DeviceEnvironment::Os);
    assert_eq!(description.main_route, "light/");
    assert_eq!(DeviceKind::Unknown.description(), "Unknown");
    assert_eq!(DeviceKind::Light.description(), "Light");
    assert_eq!(DeviceKind::Camera.description(), "Camera");
}

#[test]
fn kinds_and_values() {
    let range = ParameterKind::RangeU64 { min: 0, max: 20, step: 1, default: 0 };
    assert!(compare_with_kind(&ParameterValue::U64(3), &range));
    assert!(!compare_with_kind(&ParameterValue::U32(3), &range));
    assert_eq!(str_type(&range), "u64");
    assert_eq!(
        str_type(&ParameterKind::CharsSequence { default: String::new(), length: 0 }),
        "String"
    );
}

#[test]
fn parameter_checks() {
    let data = Parameters::new()
        .rangeu64("brightness", (0, 20, 1))
        .bool("fade", false)
        .serialize_data();

    let mut good = ParametersValues::new();
    good.u64("brightness", 4);
    assert!(check_parameters(&good, &data).is_ok());

    let mut unknown = ParametersValues::new();
    unknown.u64("brightness", 4);
    unknown.u8("speed", 1);
    let error = check_parameters(&unknown, &data).unwrap_err();
    assert_eq!(error.kind(), ErrorKind::WrongParameter);
    assert_eq!(error.to_string(), "Wrong Parameter: `speed` does not exist");

    let mut wrong = ParametersValues::new();
    wrong.u8("brightness", 4);
    let error = check_parameters(&wrong, &data).unwrap_err();
    assert_eq!(error.description(), "`brightness` must be of type `u64`");

    let error = parameter_error("bad");
    assert_eq!(error.kind(), ErrorKind::WrongParameter);
    assert_eq!(error.description(), "bad");
}

#[test]
fn server_routes() {
    let get = RouteConfig {
        path: "/toggle".into(),
        rest_kind: RestKind::Get,
        parameters: Parameters::new().u8("level", 0).serialize_data(),
    };
    assert_eq!(server_route(&get), "/toggle/{level}");
    let put = RouteConfig {
        path: "/toggle".into(),
        rest_kind: RestKind::Put,
        parameters: Parameters::new().u8("level", 0).serialize_data(),
    };
    assert_eq!(server_route(&put), "/toggle");
    let plain = RouteConfig {
        path: "/on".into(),
        rest_kind: RestKind::Get,
        parameters: ParametersData::new(),
    };
    assert_eq!(server_route(&plain), "/on");
}
