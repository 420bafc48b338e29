use govee_api::decode::{
    decode_bool, decode_control_request, decode_device, decode_device_listing,
    decode_device_state, decode_properties, decode_property,
};
use govee_api::encode::{encode_control_request, encode_control_request_value, encode_device_value};
use govee_api::govee::{
    Color, ColorTem, ColorTemRange, DecodeError, GoveeCommand, GoveeDevice, GoveeDeviceProperty,
    PayloadBody, Properties,
};
use govee_api::json::JsonValue;

fn obj(members: Vec<(&str, JsonValue)>) -> JsonValue {
    JsonValue::Obj(members.into_iter().map(|(k, v)| (k.to_string(), v)).collect())
}

fn s(text: &str) -> JsonValue {
    JsonValue::Str(text.to_string())
}

// Tolerant boolean rule: the four accepted shapes.
#[test]
fn decode_bool_accepts_native_and_string_booleans() {
    assert!(matches!(decode_bool(&JsonValue::Bool(true)), Ok(true)));
    assert!(matches!(decode_bool(&JsonValue::Bool(false)), Ok(false)));
    assert!(matches!(decode_bool(&s("true")), Ok(true)));
    assert!(matches!(decode_bool(&s("false")), Ok(false)));
}

// Tolerant boolean rule: everything else fails with InvalidBoolean carrying
// the original value.
#[test]
fn decode_bool_rejects_other_values() {
    match decode_bool(&JsonValue::Int(1)) {
        Err(DecodeError::InvalidBoolean(JsonValue::Int(1))) => {}
        other => panic!("expected InvalidBoolean(1), got {:?}", other),
    }
    match decode_bool(&s("yes")) {
        Err(DecodeError::InvalidBoolean(JsonValue::Str(v))) => assert_eq!(v, "yes"),
        other => panic!("expected InvalidBoolean(\"yes\"), got {:?}", other),
    }
    match decode_bool(&JsonValue::Null) {
        Err(DecodeError::InvalidBoolean(JsonValue::Null)) => {}
        other => panic!("expected InvalidBoolean(null), got {:?}", other),
    }
}

// The string match is exact and case-sensitive.
#[test]
fn decode_bool_is_case_sensitive() {
    assert!(matches!(
        decode_bool(&s("True")),
        Err(DecodeError::InvalidBoolean(_))
    ));
    assert!(matches!(
        decode_bool(&s("FALSE")),
        Err(DecodeError::InvalidBoolean(_))
    ));
}

// Property scenarios: online via the tolerant rule, brightness, colour.
#[test]
fn decode_property_scenarios() {
    let online = obj(vec![("online", s("true"))]);
    assert!(matches!(
        decode_property(&online),
        Ok(GoveeDeviceProperty::Online(true))
    ));

    let brightness = obj(vec![("brightness", JsonValue::Int(100))]);
    assert!(matches!(
        decode_property(&brightness),
        Ok(GoveeDeviceProperty::Brightness(100))
    ));

    let color = obj(vec![(
        "color",
        obj(vec![
            ("r", JsonValue::Int(255)),
            ("g", JsonValue::Int(0)),
            ("b", JsonValue::Int(0)),
        ]),
    )]);
    assert!(matches!(
        decode_property(&color),
        Ok(GoveeDeviceProperty::Color(Color { r: 255, g: 0, b: 0 }))
    ));

    let power = obj(vec![("powerState", s("on"))]);
    match decode_property(&power) {
        Ok(GoveeDeviceProperty::PowerState(v)) => assert_eq!(v, "on"),
        other => panic!("expected PowerState(\"on\"), got {:?}", other),
    }

    let tem = obj(vec![("colorTem", JsonValue::Int(2000))]);
    assert!(matches!(
        decode_property(&tem),
        Ok(GoveeDeviceProperty::ColorTem(2000))
    ));

    let kelvin = obj(vec![("colorTemInKelvin", JsonValue::Int(2000))]);
    assert!(matches!(
        decode_property(&kelvin),
        Ok(GoveeDeviceProperty::ColorTemInKelvin(2000))
    ));
}

// An unknown property key fails decoding and names the key.
#[test]
fn unknown_property_key_fails() {
    let entry = obj(vec![("unknownField", JsonValue::Int(1))]);
    match decode_property(&entry) {
        Err(DecodeError::UnrecognizedProperty(key)) => assert_eq!(key, "unknownField"),
        other => panic!("expected UnrecognizedProperty, got {:?}", other),
    }

    let entries = vec![obj(vec![("unknownField", JsonValue::Int(1))])];
    match decode_properties(&entries) {
        Err(DecodeError::UnrecognizedProperty(key)) => assert_eq!(key, "unknownField"),
        other => panic!("expected UnrecognizedProperty, got {:?}", other),
    }
}

// The tolerant rule is not applied to recognized non-boolean shapes: a
// numeric online value is an InvalidBoolean, and out-of-range or wrongly
// typed values of the other properties are malformed.
#[test]
fn property_value_shape_failures() {
    let online = obj(vec![("online", JsonValue::Int(1))]);
    assert!(matches!(
        decode_property(&online),
        Err(DecodeError::InvalidBoolean(JsonValue::Int(1)))
    ));

    let brightness = obj(vec![("brightness", JsonValue::Int(40000))]);
    assert!(matches!(
        decode_property(&brightness),
        Err(DecodeError::MalformedEnvelope(_))
    ));

    let color = obj(vec![(
        "color",
        obj(vec![
            ("r", JsonValue::Int(256)),
            ("g", JsonValue::Int(0)),
            ("b", JsonValue::Int(0)),
        ]),
    )]);
    assert!(matches!(
        decode_property(&color),
        Err(DecodeError::MalformedEnvelope(_))
    ));

    let power = obj(vec![("powerState", JsonValue::Int(1))]);
    assert!(matches!(
        decode_property(&power),
        Err(DecodeError::MalformedEnvelope(_))
    ));

    let two_keys = obj(vec![
        ("online", JsonValue::Bool(true)),
        ("brightness", JsonValue::Int(1)),
    ]);
    assert!(matches!(
        decode_property(&two_keys),
        Err(DecodeError::MalformedEnvelope(_))
    ));

    let not_an_object = JsonValue::Int(3);
    assert!(matches!(
        decode_property(&not_an_object),
        Err(DecodeError::MalformedEnvelope(_))
    ));
}

// Duplicate property entries are preserved in order, as received.
#[test]
fn duplicate_properties_are_preserved_in_order() {
    let entries = vec![
        obj(vec![("online", JsonValue::Bool(true))]),
        obj(vec![("online", JsonValue::Bool(false))]),
    ];
    let decoded = decode_properties(&entries).unwrap();
    assert_eq!(decoded.len(), 2);
    assert!(matches!(decoded[0], GoveeDeviceProperty::Online(true)));
    assert!(matches!(decoded[1], GoveeDeviceProperty::Online(false)));
}

// A full device-state response body decodes into the typed envelope.
#[test]
fn decode_device_state_full_body() {
    let body = br#"{
        "code": 200,
        "message": "Success",
        "data": {
            "device": "device_id",
            "model": "model_id",
            "properties": [
                {"online": true},
                {"powerState": "on"},
                {"brightness": 100},
                {"colorTemInKelvin": 2000},
                {"colorTem": 2000}
            ]
        }
    }"#;
    let envelope = decode_device_state(body).unwrap();
    assert_eq!(envelope.code, 200);
    assert_eq!(envelope.message, "Success");
    let data = envelope.data.expect("payload expected");
    assert_eq!(data.device, "device_id");
    assert_eq!(data.model, "model_id");
    assert_eq!(data.properties.len(), 5);
    assert!(matches!(data.properties[0], GoveeDeviceProperty::Online(true)));
    match &data.properties[1] {
        GoveeDeviceProperty::PowerState(v) => assert_eq!(v, "on"),
        other => panic!("expected PowerState, got {:?}", other),
    }
    assert!(matches!(
        data.properties[2],
        GoveeDeviceProperty::Brightness(100)
    ));
    assert!(matches!(
        data.properties[3],
        GoveeDeviceProperty::ColorTemInKelvin(2000)
    ));
    assert!(matches!(data.properties[4], GoveeDeviceProperty::ColorTem(2000)));
}

// A stringified online value inside a full body goes through the tolerant
// rule.
#[test]
fn decode_device_state_tolerant_online() {
    let body = br#"{"code":200,"message":"ok","data":{"device":"d","model":"m","properties":[{"online":"false"}]}}"#;
    let envelope = decode_device_state(body).unwrap();
    let data = envelope.data.unwrap();
    assert!(matches!(data.properties[0], GoveeDeviceProperty::Online(false)));
}

// An envelope without data decodes successfully to a payload-absent result.
#[test]
fn decode_device_state_data_absent() {
    let envelope = decode_device_state(br#"{"code": 400, "message": "no device"}"#).unwrap();
    assert_eq!(envelope.code, 400);
    assert_eq!(envelope.message, "no device");
    assert!(envelope.data.is_none());

    let with_null = decode_device_state(br#"{"code": 400, "message": "no device", "data": null}"#)
        .unwrap();
    assert!(with_null.data.is_none());
}

// A malformed envelope is a typed failure, never a default.
#[test]
fn decode_device_state_malformed_envelopes() {
    match decode_device_state(b"not json at all") {
        Err(DecodeError::MalformedEnvelope(reason)) => {
            assert_eq!(reason, "body is not valid JSON")
        }
        other => panic!("expected MalformedEnvelope, got {:?}", other),
    }
    assert!(matches!(
        decode_device_state(br#"{"code": 200}"#),
        Err(DecodeError::MalformedEnvelope(_))
    ));
    assert!(matches!(
        decode_device_state(br#"{"message": "ok"}"#),
        Err(DecodeError::MalformedEnvelope(_))
    ));
    assert!(matches!(
        decode_device_state(br#"{"code": "200", "message": "ok"}"#),
        Err(DecodeError::MalformedEnvelope(_))
    ));
    assert!(matches!(
        decode_device_state(br#"[1, 2]"#),
        Err(DecodeError::MalformedEnvelope(_))
    ));
}

// An unknown property key fails a whole state decode, end to end.
#[test]
fn decode_device_state_unknown_property() {
    let body =
        br#"{"code":200,"message":"ok","data":{"device":"d","model":"m","properties":[{"unknownField":1}]}}"#;
    match decode_device_state(body) {
        Err(DecodeError::UnrecognizedProperty(key)) => assert_eq!(key, "unknownField"),
        other => panic!("expected UnrecognizedProperty, got {:?}", other),
    }
}

// A full device-listing response body decodes into the typed envelope.
#[test]
fn decode_device_listing_full_body() {
    let body = br#"{
        "code": 200,
        "message": "Success",
        "data": {
            "devices": [
                {
                    "device": "device_id",
                    "model": "model_id",
                    "deviceName": "device_name",
                    "controllable": true,
                    "retrievable": true,
                    "supportCmds": ["turn", "brightness", "color", "colorTem"],
                    "properties": {"colorTem": {"range": {"min": 2000, "max": 9001}}}
                }
            ]
        }
    }"#;
    let envelope = decode_device_listing(body).unwrap();
    assert_eq!(envelope.code, Some(200));
    assert_eq!(envelope.message, "Success");
    let data = envelope.data.expect("payload expected");
    assert_eq!(data.devices.len(), 1);
    let device = &data.devices[0];
    assert_eq!(device.device, "device_id");
    assert_eq!(device.model, "model_id");
    assert_eq!(device.deviceName, "device_name");
    assert!(device.controllable);
    assert!(device.retrievable);
    assert_eq!(
        device.supportCmds,
        vec!["turn", "brightness", "color", "colorTem"]
    );
    assert_eq!(
        device.properties,
        Properties {
            colorTem: ColorTem {
                range: ColorTemRange { min: 2000, max: 9001 },
            },
        }
    );
}

// A listing without a code keeps "no code sent" distinct from any value,
// and a listing without data is payload-absent, not a failure.
#[test]
fn decode_device_listing_optional_fields() {
    let no_code = decode_device_listing(br#"{"message": "ok"}"#).unwrap();
    assert_eq!(no_code.code, None);
    assert!(no_code.data.is_none());

    let null_code = decode_device_listing(br#"{"code": null, "message": "ok"}"#).unwrap();
    assert_eq!(null_code.code, None);

    assert!(matches!(
        decode_device_listing(br#"{"code": "200", "message": "ok"}"#),
        Err(DecodeError::MalformedEnvelope(_))
    ));
}

// The two boolean descriptor flags are strict: the tolerant rule applies to
// the online property only.
#[test]
fn descriptor_booleans_are_strict() {
    let body = br#"{
        "code": 200,
        "message": "ok",
        "data": {
            "devices": [
                {
                    "device": "d",
                    "model": "m",
                    "deviceName": "n",
                    "controllable": "true",
                    "retrievable": true,
                    "supportCmds": [],
                    "properties": {"colorTem": {"range": {"min": 0, "max": 1}}}
                }
            ]
        }
    }"#;
    match decode_device_listing(body) {
        Err(DecodeError::MalformedEnvelope(reason)) => {
            assert_eq!(reason, "controllable must be a boolean")
        }
        other => panic!("expected MalformedEnvelope, got {:?}", other),
    }
}

// Encoding a control request produces exactly the documented wire object.
#[test]
fn encode_control_request_exact_content() {
    let payload = PayloadBody {
        device: "d1".to_string(),
        model: "m1".to_string(),
        cmd: GoveeCommand {
            name: "turn".to_string(),
            value: "on".to_string(),
        },
    };
    let bytes = encode_control_request(&payload);
    let produced: serde_json::Value = serde_json::from_slice(&bytes).unwrap();
    let expected: serde_json::Value =
        serde_json::from_str(r#"{"device":"d1","model":"m1","cmd":{"name":"turn","value":"on"}}"#)
            .unwrap();
    assert_eq!(produced, expected);
}

// Round trip: an encoded control request decodes back field for field.
#[test]
fn control_request_round_trip() {
    let payload = PayloadBody {
        device: "d1".to_string(),
        model: "m1".to_string(),
        cmd: GoveeCommand {
            name: "brightness".to_string(),
            value: "50".to_string(),
        },
    };
    let encoded = encode_control_request_value(&payload);
    let decoded = decode_control_request(&encoded).unwrap();
    assert_eq!(decoded.device, "d1");
    assert_eq!(decoded.model, "m1");
    assert_eq!(decoded.cmd.name, "brightness");
    assert_eq!(decoded.cmd.value, "50");
}

// Round trip: an encoded device descriptor decodes back field for field.
#[test]
fn device_round_trip() {
    let device = GoveeDevice {
        device: "aa:bb".to_string(),
        model: "H6159".to_string(),
        deviceName: "desk lamp".to_string(),
        controllable: true,
        retrievable: false,
        supportCmds: vec!["turn".to_string(), "color".to_string()],
        properties: Properties {
            colorTem: ColorTem {
                range: ColorTemRange { min: 2000, max: 9000 },
            },
        },
    };
    let encoded = encode_device_value(&device);
    let decoded = decode_device(&encoded).unwrap();
    assert_eq!(decoded.device, device.device);
    assert_eq!(decoded.model, device.model);
    assert_eq!(decoded.deviceName, device.deviceName);
    assert_eq!(decoded.controllable, device.controllable);
    assert_eq!(decoded.retrievable, device.retrievable);
    assert_eq!(decoded.supportCmds, device.supportCmds);
    assert_eq!(decoded.properties, device.properties);
}

// Numbers beyond i64, and fractional numbers, are shape mismatches for
// every numeric field.
#[test]
fn non_integer_numbers_are_rejected() {
    let body = br#"{"code": 1.5, "message": "ok"}"#;
    assert!(matches!(
        decode_device_state(body),
        Err(DecodeError::MalformedEnvelope(_))
    ));
    let entries = vec![obj(vec![("brightness", JsonValue::OtherNumber)])];
    assert!(matches!(
        decode_properties(&entries),
        Err(DecodeError::MalformedEnvelope(_))
    ));
}

// The 16-bit boundaries are inclusive; one past either end is rejected.
#[test]
fn i16_boundaries_are_inclusive() {
    let max = obj(vec![("brightness", JsonValue::Int(32767))]);
    assert!(matches!(
        decode_property(&max),
        Ok(GoveeDeviceProperty::Brightness(32767))
    ));
    let min = obj(vec![("colorTem", JsonValue::Int(-32768))]);
    assert!(matches!(
        decode_property(&min),
        Ok(GoveeDeviceProperty::ColorTem(-32768))
    ));
    let over = obj(vec![("brightness", JsonValue::Int(32768))]);
    assert!(matches!(
        decode_property(&over),
        Err(DecodeError::MalformedEnvelope(_))
    ));
    let under = obj(vec![("colorTem", JsonValue::Int(-32769))]);
    assert!(matches!(
        decode_property(&under),
        Err(DecodeError::MalformedEnvelope(_))
    ));
}

// The first failing descriptor decides a listing failure, and capability
// metadata without a colour-temperature range is a shape failure.
#[test]
fn listing_errors_propagate_from_the_first_bad_descriptor() {
    let body = br#"{
        "code": 200,
        "message": "ok",
        "data": {
            "devices": [
                {
                    "device": "d",
                    "model": "m",
                    "deviceName": "n",
                    "controllable": true,
                    "retrievable": true,
                    "supportCmds": ["turn", "mode"],
                    "properties": {"mode": {"options": [{"name": "Low", "value": 1}]}}
                }
            ]
        }
    }"#;
    match decode_device_listing(body) {
        Err(DecodeError::MalformedEnvelope(reason)) => {
            assert_eq!(
                reason,
                "properties must carry a colorTem range with 16-bit min and max"
            )
        }
        other => panic!("expected MalformedEnvelope, got {:?}", other),
    }
}

// Empty property and device arrays decode to empty results.
#[test]
fn empty_arrays_decode() {
    let state = decode_device_state(
        br#"{"code":200,"message":"ok","data":{"device":"d","model":"m","properties":[]}}"#,
    )
    .unwrap();
    assert_eq!(state.data.unwrap().properties.len(), 0);

    let listing =
        decode_device_listing(br#"{"code":200,"message":"ok","data":{"devices":[]}}"#).unwrap();
    assert_eq!(listing.data.unwrap().devices.len(), 0);
}
