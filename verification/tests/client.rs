use govee_api::govee::{GoveeCommand, PayloadBody};
use govee_api::{
    appliance_devices_endpoint, device_state_endpoint, devices_endpoint, GoveeClient,
    GOVEE_ROOT_URL,
};

fn payload(value: &str) -> PayloadBody {
    PayloadBody {
        device: "device_id".to_string(),
        model: "model_id".to_string(),
        cmd: GoveeCommand {
            name: "turn".to_string(),
            value: value.to_string(),
        },
    }
}

// A new client keeps the key it was given and the standard root URL.
#[test]
fn new_client_holds_key_and_root() {
    let client = GoveeClient::new("1234567890");
    assert_eq!(client.api_key(), "1234567890");
    assert_eq!(client.root_url(), GOVEE_ROOT_URL);
    assert_eq!(client.root_url(), "https://developer-api.govee.com");
}

// Endpoints are the root URL followed by the documented paths.
#[test]
fn endpoints_follow_the_root_url() {
    let client = GoveeClient::new("k");
    assert_eq!(
        client.devices_control_endpoint(),
        "https://developer-api.govee.com/v1/devices/control"
    );
    assert_eq!(devices_endpoint(), "https://developer-api.govee.com/v1/devices");
    assert_eq!(
        appliance_devices_endpoint(),
        "https://developer-api.govee.com/v1/appliance/devices"
    );
    assert_eq!(
        device_state_endpoint(),
        "https://developer-api.govee.com/v1/devices/state"
    );
}

// A control request pairs the endpoint with the encoded body.
#[test]
fn control_device_request_builds_endpoint_and_body() {
    let client = GoveeClient::new("k");
    let (endpoint, body) = client.control_device_request(&payload("on"));
    assert_eq!(endpoint, "https://developer-api.govee.com/v1/devices/control");
    let produced: serde_json::Value = serde_json::from_slice(&body).unwrap();
    let expected: serde_json::Value = serde_json::from_str(
        r#"{"device":"device_id","model":"model_id","cmd":{"name":"turn","value":"on"}}"#,
    )
    .unwrap();
    assert_eq!(produced, expected);
}

// An appliance control request goes to the appliance path.
#[test]
fn control_appliance_request_builds_endpoint_and_body() {
    let client = GoveeClient::new("k");
    let (endpoint, body) = client.control_appliance_request(&payload("off"));
    assert_eq!(
        endpoint,
        "https://developer-api.govee.com/v1/appliance/devices/control"
    );
    let produced: serde_json::Value = serde_json::from_slice(&body).unwrap();
    assert_eq!(produced["cmd"]["value"], serde_json::Value::String("off".to_string()));
}

// Bulk control yields one body per payload, in order.
#[test]
fn bulk_control_requests_build_all_bodies() {
    let client = GoveeClient::new("k");
    let payloads = vec![payload("on"), payload("off")];
    let (endpoint, bodies) = client.bulk_control_requests(&payloads);
    assert_eq!(endpoint, "https://developer-api.govee.com/v1/devices/control");
    assert_eq!(bodies.len(), 2);
    let first: serde_json::Value = serde_json::from_slice(&bodies[0]).unwrap();
    let second: serde_json::Value = serde_json::from_slice(&bodies[1]).unwrap();
    assert_eq!(first["cmd"]["value"], serde_json::Value::String("on".to_string()));
    assert_eq!(second["cmd"]["value"], serde_json::Value::String("off".to_string()));
}

// Appliance listings share the wire shape of device listings.
#[test]
fn decode_appliance_listing_shares_the_listing_shape() {
    let body = br#"{
        "code": 200,
        "message": "Success",
        "data": {
            "devices": [
                {
                    "device": "appliance_id",
                    "model": "model_id",
                    "deviceName": "device_name",
                    "controllable": true,
                    "retrievable": true,
                    "supportCmds": ["turn", "mode"],
                    "properties": {"colorTem": {"range": {"min": 0, "max": 0}}}
                }
            ]
        }
    }"#;
    let envelope = govee_api::decode::decode_appliance_listing(body).unwrap();
    assert_eq!(envelope.code, Some(200));
    let data = envelope.data.unwrap();
    assert_eq!(data.devices[0].device, "appliance_id");
    assert_eq!(data.devices[0].supportCmds, vec!["turn", "mode"]);
}
