use ascot::parameters::{
    ParameterId, ParameterKind, ParameterValue, Parameters, ParametersData, ParametersValues,
};
use ascot::parse::IntErrorKind;
use ascot::routing::{
    analyze_route, check_body_headers, check_body_parameters, check_path, is_method_allowed,
    is_same_method, method_map, parse_get_parameters, parse_parameter_value, plan_request,
    plan_simple_request, ErrorClass, Method, PathValue, RequestPlan, RestKind, RouteArguments,
    RouteConfig, RouteError, SimplePlan, MAXIMUM_REQUEST_SIZE,
};

fn route(path: &str, rest_kind: RestKind, parameters: ParametersData) -> RouteConfig {
    RouteConfig {
        path: path.to_string(),
        rest_kind,
        parameters,
    }
}

fn light_routes() -> Vec<RouteConfig> {
    vec![
        route("/on", RestKind::Put, ParametersData::new()),
        route("/off", RestKind::Put, ParametersData::new()),
        route(
            "/toggle",
            RestKind::Get,
            Parameters::new()
                .rangeu64("brightness", (0, 20, 1))
                .bool("fade", false)
                .serialize_data(),
        ),
        route(
            "/color",
            RestKind::Post,
            Parameters::new().u8("red", 0).serialize_data(),
        ),
    ]
}

#[test]
fn methods() {
    assert_eq!(method_map(RestKind::Get), Method::Get);
    assert_eq!(method_map(RestKind::Delete), Method::Delete);
    assert!(is_same_method(Method::Put, RestKind::Put));
    assert!(!is_same_method(Method::Get, RestKind::Put));
    assert!(is_method_allowed(Method::Other));
    assert!(!is_method_allowed(Method::Post));
}

#[test]
fn check_path_finds_the_route() {
    let routes = light_routes();
    assert_eq!(check_path("/light", &routes, Method::Put, "/light/on"), 0);
    assert_eq!(check_path("/light", &routes, Method::Put, "/light/off"), 1);
    assert_eq!(check_path("/light", &routes, Method::Put, "/light/off/"), 1);
    assert_eq!(check_path("/light", &routes, Method::Get, "/light/toggle"), 2);
}

#[test]
fn check_path_rejects() {
    let routes = light_routes();
    let n = routes.len();
    // Wrong method.
    assert_eq!(check_path("/light", &routes, Method::Get, "/light/on"), n);
    // Wrong main route.
    assert_eq!(check_path("/light", &routes, Method::Put, "/lamp/on"), n);
    // No separator at all.
    assert_eq!(check_path("/light", &routes, Method::Put, "light"), n);
    // Main route only.
    assert_eq!(check_path("/light", &routes, Method::Put, "/light"), n);
    // Empty path.
    assert_eq!(check_path("/light", &routes, Method::Put, ""), n);
    // Unknown route.
    assert_eq!(check_path("/light", &routes, Method::Put, "/light/dim"), n);
    // No routes.
    assert_eq!(check_path("/light", &[], Method::Put, "/light/on"), 0);
}

#[test]
fn analyze_route_without_parameters() {
    let routes = light_routes();
    let target = analyze_route("/light", &routes, Method::Put, "/light/off").unwrap();
    assert_eq!(target.index, 1);
    assert!(matches!(target.arguments, RouteArguments::NoParameters));
    let target = analyze_route("/light", &routes, Method::Put, "/light/off/").unwrap();
    assert_eq!(target.index, 1);
}

#[test]
fn analyze_route_reads_get_parameters() {
    let routes = light_routes();
    let target = analyze_route("/light", &routes, Method::Get, "/light/toggle/15/true").unwrap();
    assert_eq!(target.index, 2);
    match target.arguments {
        RouteArguments::FromPath(args) => {
            assert_eq!(args.len(), 2);
            assert_eq!(args[0].name, "brightness");
            assert!(matches!(args[0].value, PathValue::Ready(ParameterValue::U64(15))));
            assert_eq!(args[1].name, "fade");
            assert!(matches!(args[1].value, PathValue::Ready(ParameterValue::Bool(true))));
        }
        other => panic!("unexpected arguments {other:?}"),
    }
}

#[test]
fn analyze_route_missing_parameters() {
    let routes = light_routes();
    match analyze_route("/light", &routes, Method::Get, "/light/toggle") {
        Err(RouteError::MissingParameters(names)) => {
            assert_eq!(names, vec!["brightness".to_string(), "fade".to_string()]);
        }
        other => panic!("unexpected result {other:?}"),
    }
    match analyze_route("/light", &routes, Method::Get, "/light/toggle/3") {
        Err(RouteError::MissingParameters(names)) => {
            assert_eq!(names, vec!["fade".to_string()]);
        }
        other => panic!("unexpected result {other:?}"),
    }
}

#[test]
fn analyze_route_invalid_value() {
    let routes = light_routes();
    match analyze_route("/light", &routes, Method::Get, "/light/toggle/x1/true") {
        Err(RouteError::InvalidValue {
            value,
            carrier,
            reason,
        }) => {
            assert_eq!(value, "x1");
            assert_eq!(carrier, "u64");
            assert_eq!(reason, "invalid digit found in string");
        }
        other => panic!("unexpected result {other:?}"),
    }
    match analyze_route("/light", &routes, Method::Get, "/light/toggle/1/yes") {
        Err(RouteError::InvalidValue { carrier, reason, .. }) => {
            assert_eq!(carrier, "bool");
            assert_eq!(reason, "provided string was not `true` or `false`");
        }
        other => panic!("unexpected result {other:?}"),
    }
}

#[test]
fn analyze_route_body_parameters() {
    let routes = light_routes();
    let target = analyze_route("/light", &routes, Method::Post, "/light/color").unwrap();
    assert_eq!(target.index, 3);
    assert!(matches!(target.arguments, RouteArguments::FromBody));
}

#[test]
fn analyze_route_not_found() {
    let routes = light_routes();
    for (method, path) in [
        (Method::Put, "/lamp/on"),
        (Method::Put, "light"),
        (Method::Put, "/light"),
        (Method::Delete, "/light/on"),
        (Method::Put, "/light/dim"),
    ] {
        assert!(matches!(
            analyze_route("/light", &routes, method, path),
            Err(RouteError::NotFound)
        ));
    }
}

#[test]
fn analyze_route_uses_the_first_route_contained_in_the_path() {
    let routes = vec![
        route("/on", RestKind::Put, ParametersData::new()),
        route("/online", RestKind::Put, ParametersData::new()),
    ];
    let target = analyze_route("/light", &routes, Method::Put, "/light/online").unwrap();
    assert_eq!(target.index, 0);
}

#[test]
fn parse_values() {
    let u8_kind = ParameterKind::U8 { default: 0, min: 0, max: 255 };
    assert!(matches!(
        parse_parameter_value("255", &u8_kind),
        Ok(PathValue::Ready(ParameterValue::U8(255)))
    ));
    assert!(matches!(
        parse_parameter_value("+7", &u8_kind),
        Ok(PathValue::Ready(ParameterValue::U8(7)))
    ));
    match parse_parameter_value("256", &u8_kind) {
        Err(RouteError::InvalidValue { reason, carrier, .. }) => {
            assert_eq!(reason, "number too large to fit in target type");
            assert_eq!(carrier, "u8");
        }
        other => panic!("unexpected {other:?}"),
    }
    match parse_parameter_value("", &u8_kind) {
        Err(RouteError::InvalidValue { reason, .. }) => {
            assert_eq!(reason, "cannot parse integer from empty string")
        }
        other => panic!("unexpected {other:?}"),
    }
    match parse_parameter_value("-1", &u8_kind) {
        Err(RouteError::InvalidValue { reason, .. }) => {
            assert_eq!(reason, "invalid digit found in string")
        }
        other => panic!("unexpected {other:?}"),
    }
    let u16_kind = ParameterKind::U16 { default: 0, min: 0, max: 1 };
    assert!(matches!(
        parse_parameter_value("65535", &u16_kind),
        Ok(PathValue::Ready(ParameterValue::U16(65535)))
    ));
    let u64_kind = ParameterKind::U64 { default: 0, min: 0, max: 1 };
    assert!(matches!(
        parse_parameter_value("18446744073709551615", &u64_kind),
        Ok(PathValue::Ready(ParameterValue::U64(u64::MAX)))
    ));
    assert!(parse_parameter_value("18446744073709551616", &u64_kind).is_err());
    let f32_kind = ParameterKind::F32 { default: 0, min: 0, max: 0, step: 0 };
    match parse_parameter_value("1.5", &f32_kind) {
        Ok(PathValue::Float32Text(text)) => assert_eq!(text, "1.5"),
        other => panic!("unexpected {other:?}"),
    }
    let chars_kind = ParameterKind::CharsSequence { default: String::new(), length: 0 };
    match parse_parameter_value("hello", &chars_kind) {
        Ok(PathValue::Ready(ParameterValue::CharsSequence(text))) => assert_eq!(text, "hello"),
        other => panic!("unexpected {other:?}"),
    }
    let bool_kind = ParameterKind::Bool { default: false };
    assert!(matches!(
        parse_parameter_value("false", &bool_kind),
        Ok(PathValue::Ready(ParameterValue::Bool(false)))
    ));
    assert!(parse_parameter_value("True", &bool_kind).is_err());
}

#[test]
fn get_parameters_one_per_segment() {
    let data = Parameters::new().u32("a", 0).characters_sequence("b", "").serialize_data();
    let segments = vec!["42".to_string(), "word".to_string(), "extra".to_string()];
    let args = parse_get_parameters(&data, &segments).unwrap();
    assert_eq!(args.len(), 2);
    assert!(matches!(args[0].value, PathValue::Ready(ParameterValue::U32(42))));
}

#[test]
fn body_headers() {
    assert!(matches!(check_body_headers(None, Some("application/json")), Err(RouteError::NoContentLength)));
    assert!(matches!(
        check_body_headers(Some("abc"), Some("application/json")),
        Err(RouteError::InvalidContentLength(IntErrorKind::InvalidDigit))
    ));
    assert!(matches!(check_body_headers(Some("129"), Some("application/json")), Err(RouteError::TooLarge)));
    assert!(matches!(check_body_headers(Some("12"), None), Err(RouteError::NoContentType)));
    assert!(matches!(check_body_headers(Some("12"), Some("text/plain")), Err(RouteError::NotJson)));
    assert_eq!(check_body_headers(Some("128"), Some("application/json")).unwrap(), MAXIMUM_REQUEST_SIZE);
    assert_eq!(check_body_headers(Some("0"), Some("application/json")).unwrap(), 0);
}

#[test]
fn body_parameters() {
    let data = Parameters::new().u8("red", 0).bool("on", false).serialize_data();
    let mut values = ParametersValues::new();
    values.u8("red", 3);
    values.bool("on", true);
    values.u8("extra", 1);
    assert!(check_body_parameters(&data, &values).is_ok());

    let mut missing = ParametersValues::new();
    missing.u8("red", 3);
    match check_body_parameters(&data, &missing) {
        Err(RouteError::ParameterNotFound(name)) => assert_eq!(name, "on"),
        other => panic!("unexpected {other:?}"),
    }

    let mut wrong = ParametersValues::new();
    wrong.u16("red", 3);
    wrong.bool("on", true);
    match check_body_parameters(&data, &wrong) {
        Err(RouteError::WrongParameterId { found, expected }) => {
            assert_eq!(found, ParameterId::U16);
            assert_eq!(expected, ParameterId::U8);
        }
        other => panic!("unexpected {other:?}"),
    }
}

#[test]
fn plans() {
    let routes = light_routes();
    assert!(matches!(plan_request("/light", &routes, Method::Put, "/"), RequestPlan::MainRoute));
    assert!(matches!(plan_request("/light", &routes, Method::Other, "/light/on"), RequestPlan::NotAllowed));
    assert!(matches!(plan_request("/light", &routes, Method::Put, "/light/on"), RequestPlan::Serve(_)));
    assert!(matches!(plan_request("/light", &routes, Method::Put, "/light/x"), RequestPlan::Fail(RouteError::NotFound)));
    assert_eq!(plan_simple_request("/light", &routes, Method::Get, "/"), SimplePlan::MainRoute);
    assert_eq!(plan_simple_request("/light", &routes, Method::Other, "/light/on"), SimplePlan::NotAllowed);
    assert_eq!(plan_simple_request("/light", &routes, Method::Put, "/light/off"), SimplePlan::Run(1));
    assert_eq!(plan_simple_request("/light", &routes, Method::Put, "/light/dim"), SimplePlan::NotFound);
}

#[test]
fn error_classes() {
    assert_eq!(RouteError::NotFound.class(), ErrorClass::NotFound);
    assert_eq!(RouteError::NotJson.class(), ErrorClass::InvalidData);
    assert_eq!(RouteError::TooLarge.class(), ErrorClass::Internal);
    assert_eq!(RouteError::MissingParameters(vec![]).class(), ErrorClass::InvalidData);
}

#[test]
fn value_text_reads_back() {
    let cases = vec![
        (ParameterValue::Bool(false), ParameterKind::Bool { default: true }),
        (ParameterValue::U8(0), ParameterKind::U8 { default: 0, min: 0, max: 255 }),
        (ParameterValue::U16(65535), ParameterKind::U16 { default: 0, min: 0, max: 1 }),
        (ParameterValue::U32(4_000_000_000), ParameterKind::U32 { default: 0, min: 0, max: 1 }),
        (ParameterValue::U64(u64::MAX), ParameterKind::U64 { default: 0, min: 0, max: 1 }),
    ];
    for (value, kind) in cases {
        let text = value.as_string().unwrap();
        match parse_parameter_value(&text, &kind) {
            Ok(PathValue::Ready(read)) => assert_eq!(read, value),
            other => panic!("unexpected {other:?}"),
        }
    }
}

#[test]
fn path_values_read_back() {
    let data = Parameters::new()
        .bool("on", false)
        .u8("level", 0)
        .u64("count", 0)
        .characters_sequence("label", "")
        .serialize_data();
    let values = vec![
        ParameterValue::Bool(true),
        ParameterValue::U8(200),
        ParameterValue::U64(12345678901),
        ParameterValue::CharsSequence("kitchen".to_string()),
    ];
    let segments: Vec<String> = values.iter().map(|v| v.as_string().unwrap()).collect();
    let args = parse_get_parameters(&data, &segments).unwrap();
    assert_eq!(args.len(), values.len());
    for (arg, value) in args.iter().zip(values.iter()) {
        match &arg.value {
            PathValue::Ready(read) => assert_eq!(read, value),
            other => panic!("unexpected {other:?}"),
        }
    }
}
