use ascot::parameters::{
    is_u16_max, is_u8_max, is_u8_min, u32_max, u64_max, u8_max, DecimalPrecision, ParameterId,
    ParameterKind, ParameterValue, Parameters, ParametersData, ParametersValues,
};

fn entry_names(data: &ParametersData) -> Vec<String> {
    let mut names = Vec::new();
    let mut i = 0;
    while let Some((name, _)) = data.get_index(i) {
        names.push(name.clone());
        i += 1;
    }
    names
}

fn expected_parameters_data() -> ParametersData {
    ParametersData::new()
        .insert("bool".into(), ParameterKind::Bool { default: true })
        .insert(
            "u8".into(),
            ParameterKind::U8 {
                default: 0,
                min: u8::MAX,
                max: u8::MIN,
            },
        )
        .insert(
            "u16".into(),
            ParameterKind::U16 {
                default: 0,
                min: u16::MAX,
                max: u16::MIN,
            },
        )
        .insert(
            "u32".into(),
            ParameterKind::U32 {
                default: 0,
                min: u32::MAX,
                max: u32::MIN,
            },
        )
        .insert(
            "u64".into(),
            ParameterKind::U64 {
                default: 0,
                min: u64::MAX,
                max: u64::MIN,
            },
        )
        .insert(
            "f32".into(),
            ParameterKind::F32 {
                default: 0f32.to_bits(),
                min: f32::MAX.to_bits(),
                max: f32::MIN.to_bits(),
                step: 0f32.to_bits(),
            },
        )
        .insert(
            "f64".into(),
            ParameterKind::F64 {
                default: 0f64.to_bits(),
                min: f64::MAX.to_bits(),
                max: f64::MIN.to_bits(),
                step: 0f64.to_bits(),
            },
        )
        .insert(
            "rangeu64".into(),
            ParameterKind::RangeU64 {
                min: 0,
                max: 20,
                step: 1,
                default: 5,
            },
        )
        .insert(
            "rangef64".into(),
            ParameterKind::RangeF64 {
                min: 0f64.to_bits(),
                max: 20f64.to_bits(),
                step: 0.1f64.to_bits(),
                default: 5f64.to_bits(),
            },
        )
        .insert(
            "greeting".into(),
            ParameterKind::CharsSequence {
                default: "hello".into(),
                length: 5,
            },
        )
        .insert(
            "greeting2".into(),
            ParameterKind::CharsSequence {
                default: "hello".into(),
                length: 5,
            },
        )
}

fn same_kind(a: &ParameterKind, b: &ParameterKind) -> bool {
    format!("{a:?}") == format!("{b:?}")
}

#[test]
fn parameters_test_parameters() {
    let parameters = Parameters::new()
        .bool("bool", true)
        .u8("u8", 0)
        .u16("u16", 0)
        .u32("u32", 0)
        .u64("u64", 0)
        .f32_bits("f32", 0f32.to_bits())
        .f64_bits("f64", 0f64.to_bits())
        .rangeu64_with_default("rangeu64", (0, 20, 1), 5)
        .rangef64_with_default(
            "rangef64",
            (0f64.to_bits(), 20f64.to_bits(), 0.1f64.to_bits()),
            5f64.to_bits(),
        )
        .characters_sequence("greeting", "hello")
        .characters_sequence("greeting2", &String::from("hello"))
        // Adds a duplicate to see whether that value is maintained or
        // removed.
        .u16("u16", 0);

    let data = parameters.serialize_data();
    let expected = expected_parameters_data();
    assert_eq!(entry_names(&data), entry_names(&expected));
    assert_eq!(data.len(), expected.len());
    for name in entry_names(&expected) {
        assert!(same_kind(
            data.get(&name).unwrap(),
            expected.get(&name).unwrap()
        ));
    }
}

#[test]
fn repeated_name_keeps_its_place_and_takes_the_new_kind() {
    let data = Parameters::new()
        .u8("a", 1)
        .bool("b", false)
        .u8_with_limits("a", 7, 1, 9)
        .serialize_data();
    assert_eq!(entry_names(&data), vec!["a".to_string(), "b".to_string()]);
    assert!(same_kind(
        data.get("a").unwrap(),
        &ParameterKind::U8 {
            default: 7,
            min: 1,
            max: 9
        }
    ));
    assert!(data.get("c").is_none());
    assert!(!data.is_empty());
    assert!(ParametersData::new().is_empty());
}

#[test]
fn characters_sequence_length_is_in_bytes() {
    let data = Parameters::new()
        .characters_sequence("word", "città")
        .serialize_data();
    match data.get("word").unwrap() {
        ParameterKind::CharsSequence { default, length } => {
            assert_eq!(default, "città");
            assert_eq!(*length, 6);
        }
        other => panic!("unexpected kind {other:?}"),
    }
}

#[test]
fn rangef64_step_is_made_positive() {
    let data = Parameters::new()
        .rangef64("r", (1f64.to_bits(), 2f64.to_bits(), (-0.5f64).to_bits()))
        .serialize_data();
    match data.get("r").unwrap() {
        ParameterKind::RangeF64 {
            min,
            max,
            step,
            default,
        } => {
            assert_eq!(f64::from_bits(*min), 1.0);
            assert_eq!(f64::from_bits(*max), 2.0);
            assert_eq!(f64::from_bits(*step), 0.5);
            assert_eq!(f64::from_bits(*default), 0.0);
        }
        other => panic!("unexpected kind {other:?}"),
    }
}

#[test]
fn decimal_precision_steps() {
    assert_eq!(f32::from_bits(DecimalPrecision::OneDigit.to_f32_bits()), 0.1);
    assert_eq!(f32::from_bits(DecimalPrecision::TwoDigits.to_f32_bits()), 0.01);
    assert_eq!(f32::from_bits(DecimalPrecision::ThreeDigits.to_f32_bits()), 0.001);
    assert_eq!(f32::from_bits(DecimalPrecision::Any.to_f32_bits()), 0.);
    assert_eq!(f64::from_bits(DecimalPrecision::OneDigit.to_f64_bits()), 0.1);
    assert_eq!(f64::from_bits(DecimalPrecision::TwoDigits.to_f64_bits()), 0.01);
    assert_eq!(f64::from_bits(DecimalPrecision::ThreeDigits.to_f64_bits()), 0.001);
    assert_eq!(f64::from_bits(DecimalPrecision::Any.to_f64_bits()), 0.);
}

#[test]
fn unlimited_float_bounds() {
    let data = Parameters::new()
        .f32_bits("x", 1.5f32.to_bits())
        .f64_with_limits("y", 2f64.to_bits(), 0f64.to_bits(), 9f64.to_bits(), DecimalPrecision::TwoDigits)
        .serialize_data();
    match data.get("x").unwrap() {
        ParameterKind::F32 { default, min, max, step } => {
            assert_eq!(f32::from_bits(*default), 1.5);
            assert_eq!(f32::from_bits(*min), f32::MAX);
            assert_eq!(f32::from_bits(*max), f32::MIN);
            assert_eq!(f32::from_bits(*step), 0.);
        }
        other => panic!("unexpected kind {other:?}"),
    }
    match data.get("y").unwrap() {
        ParameterKind::F64 { step, .. } => assert_eq!(f64::from_bits(*step), 0.01),
        other => panic!("unexpected kind {other:?}"),
    }
    let f64_limits = Parameters::new().f64_bits("z", 0).serialize_data();
    match f64_limits.get("z").unwrap() {
        ParameterKind::F64 { min, max, .. } => {
            assert_eq!(f64::from_bits(*min), f64::MAX);
            assert_eq!(f64::from_bits(*max), f64::MIN);
        }
        other => panic!("unexpected kind {other:?}"),
    }
}

#[test]
fn parameter_ids() {
    assert_eq!(ParameterId::Bool.to_str(), "Bool");
    assert_eq!(ParameterId::RangeU64.to_str(), "RangeU64");
    assert_eq!(ParameterId::CharsSequence.to_str(), "String");
    assert_eq!(ParameterId::RangeU64.as_type(), "u64");
    assert_eq!(ParameterId::RangeF64.as_type(), "f64");
    assert_eq!(ParameterId::F32.as_type(), "f32");
    assert_eq!(ParameterId::CharsSequence.as_type(), "String");
    assert_eq!(
        ParameterId::from_parameter_kind(&ParameterKind::RangeU64 {
            min: 0,
            max: 1,
            step: 1,
            default: 0
        }),
        ParameterId::RangeU64
    );
    assert_eq!(
        ParameterId::from_parameter_value(&ParameterValue::U64(3)),
        ParameterId::U64
    );
    assert_eq!(
        ParameterId::from_parameter_value(&ParameterValue::CharsSequence("x".into())),
        ParameterId::CharsSequence
    );
}

#[test]
fn default_values_of_kinds() {
    match ParameterValue::from_parameter_kind(&ParameterKind::RangeU64 {
        min: 0,
        max: 9,
        step: 1,
        default: 4,
    }) {
        ParameterValue::U64(v) => assert_eq!(v, 4),
        other => panic!("unexpected value {other:?}"),
    }
    match ParameterValue::from_parameter_kind(&ParameterKind::CharsSequence {
        default: "on".into(),
        length: 2,
    }) {
        ParameterValue::CharsSequence(v) => assert_eq!(v, "on"),
        other => panic!("unexpected value {other:?}"),
    }
}

#[test]
fn values_read_back_what_was_written() {
    let mut values = ParametersValues::new();
    values.bool("one", true);
    values.u8("two", 8);
    values.f32_bits("three", 3.0f32.to_bits());
    values.u8("two", 9);
    assert_eq!(values.len(), 3);
    assert!(matches!(values.get("one"), Some(ParameterValue::Bool(true))));
    assert!(matches!(values.get("two"), Some(ParameterValue::U8(9))));
    match values.get("three") {
        Some(ParameterValue::F32(bits)) => assert_eq!(f32::from_bits(*bits), 3.0),
        other => panic!("unexpected value {other:?}"),
    }
    assert!(values.get("four").is_none());
    let (name, _) = values.get_index(1).unwrap();
    assert_eq!(name, "two");
    assert!(values.get_index(3).is_none());
}

#[test]
fn unset_limits() {
    assert!(is_u8_max(&255));
    assert!(!is_u8_max(&0));
    assert!(is_u8_min(&0));
    assert!(is_u16_max(&u16::MAX));
    assert_eq!(u8_max(), 255);
    assert_eq!(u32_max(), u32::MAX);
    assert_eq!(u64_max(), u64::MAX);
}

#[test]
fn value_as_string() {
    assert_eq!(ParameterValue::Bool(true).as_string().as_deref(), Some("true"));
    assert_eq!(ParameterValue::Bool(false).as_string().as_deref(), Some("false"));
    assert_eq!(ParameterValue::U8(7).as_string().as_deref(), Some("7"));
    assert_eq!(ParameterValue::U16(1040).as_string().as_deref(), Some("1040"));
    assert_eq!(ParameterValue::U32(100000).as_string().as_deref(), Some("100000"));
    assert_eq!(
        ParameterValue::U64(18446744073709551615).as_string().as_deref(),
        Some("18446744073709551615")
    );
    assert_eq!(
        ParameterValue::CharsSequence("hello".to_string()).as_string().as_deref(),
        Some("hello")
    );
    assert_eq!(ParameterValue::F32(1.5f32.to_bits()).as_string(), None);
    assert_eq!(ParameterValue::F64(2.5f64.to_bits()).as_string(), None);
}
