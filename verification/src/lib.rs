use vstd::prelude::*;
use vstd::string::StringExecFns;

pub mod decode;
pub mod encode;
pub mod govee;
pub mod json;
pub mod laws;

use crate::encode::{encode_control_request, spec_encode_control_request};
use crate::govee::PayloadBody;
use crate::json::json_bytes_of;

verus! {

/// The root URL of the Govee API that every endpoint path is appended to.
pub const GOVEE_ROOT_URL: &'static str = "https://developer-api.govee.com";

/// Mathematical model of a [`GoveeClient`]: the API key and the root URL it
/// was configured with.
pub struct GoveeClientView {
    pub govee_api_key: Seq<char>,
    pub govee_root_url: Seq<char>,
}

/// A client for the Govee device REST API: it holds the API key sent with
/// every request and the root URL that endpoint paths are appended to.
pub struct GoveeClient {
    govee_api_key: String,
    govee_root_url: String,
}

impl View for GoveeClient {
    type V = GoveeClientView;

    closed spec fn view(&self) -> GoveeClientView {
        GoveeClientView {
            govee_api_key: self.govee_api_key@,
            govee_root_url: self.govee_root_url@,
        }
    }
}

impl GoveeClient {
    /// Creates a client that authenticates with `api_key` against the
    /// standard Govee API root URL.
    pub fn new(api_key: &str) -> (client: GoveeClient)
        ensures
            client@.govee_api_key == api_key@,
            client@.govee_root_url == GOVEE_ROOT_URL@,
    {
        GoveeClient {
            govee_api_key: api_key.to_owned(),
            govee_root_url: GOVEE_ROOT_URL.to_owned(),
        }
    }

    /// The API key this client sends with every request.
    pub fn api_key(&self) -> (r: &String)
        ensures
            r@ == self@.govee_api_key,
    {
        &self.govee_api_key
    }

    /// The root URL this client was configured with.
    pub fn root_url(&self) -> (r: &String)
        ensures
            r@ == self@.govee_root_url,
    {
        &self.govee_root_url
    }

    /// The endpoint a device control request is sent to: the client's root
    /// URL followed by the control path.
    pub fn devices_control_endpoint(&self) -> (r: String)
        ensures
            r@ == self@.govee_root_url + "/v1/devices/control"@,
    {
        self.govee_root_url.clone().concat("/v1/devices/control")
    }

    /// Everything a device control call sends: the endpoint and the encoded
    /// request body.
    pub fn control_device_request(&self, payload: &PayloadBody) -> (r: (String, Vec<u8>))
        ensures
            r.0@ == self@.govee_root_url + "/v1/devices/control"@,
            r.1@ == json_bytes_of(spec_encode_control_request(payload@)),
    {
        let endpoint = self.devices_control_endpoint();
        let body = encode_control_request(payload);
        (endpoint, body)
    }

    /// Everything a bulk control call sends: the shared endpoint and one
    /// encoded body per payload, in the payloads' order. The requests are
    /// independent; issuing them and collecting the outcomes is the
    /// transport's concern.
    pub fn bulk_control_requests(&self, payloads: &Vec<PayloadBody>) -> (r: (String, Vec<Vec<u8>>))
        ensures
            r.0@ == self@.govee_root_url + "/v1/devices/control"@,
            r.1@.len() == payloads@.len(),
            forall|i: int|
                0 <= i < payloads@.len() ==> r.1@[i]@ == json_bytes_of(
                    spec_encode_control_request(payloads@[i]@),
                ),
    {
        let endpoint = self.devices_control_endpoint();
        let n = payloads.len();
        let mut bodies: Vec<Vec<u8>> = Vec::new();
        let mut i: usize = 0;
        while i < n
            invariant
                n == payloads@.len(),
                0 <= i <= n,
                bodies@.len() == i,
                forall|j: int|
                    0 <= j < i ==> bodies@[j]@ == json_bytes_of(
                        spec_encode_control_request(payloads@[j]@),
                    ),
            decreases n - i,
        {
            let body = encode_control_request(&payloads[i]);
            bodies.push(body);
            i += 1;
        }
        (endpoint, bodies)
    }

    /// Everything an appliance control call sends: the endpoint (always
    /// under the standard root URL, as for every non-control-device call)
    /// and the encoded request body.
    pub fn control_appliance_request(&self, payload: &PayloadBody) -> (r: (String, Vec<u8>))
        ensures
            r.0@ == GOVEE_ROOT_URL@ + "/v1/appliance/devices/control"@,
            r.1@ == json_bytes_of(spec_encode_control_request(payload@)),
    {
        let endpoint = GOVEE_ROOT_URL.to_owned().concat("/v1/appliance/devices/control");
        let body = encode_control_request(payload);
        (endpoint, body)
    }
}

/// The endpoint a device listing is fetched from.
pub fn devices_endpoint() -> (r: String)
    ensures
        r@ == GOVEE_ROOT_URL@ + "/v1/devices"@,
{
    GOVEE_ROOT_URL.to_owned().concat("/v1/devices")
}

/// The endpoint an appliance listing is fetched from.
pub fn appliance_devices_endpoint() -> (r: String)
    ensures
        r@ == GOVEE_ROOT_URL@ + "/v1/appliance/devices"@,
{
    GOVEE_ROOT_URL.to_owned().concat("/v1/appliance/devices")
}

/// The endpoint a device state is fetched from; the transport appends the
/// `device` and `model` query parameters.
pub fn device_state_endpoint() -> (r: String)
    ensures
        r@ == GOVEE_ROOT_URL@ + "/v1/devices/state"@,
{
    GOVEE_ROOT_URL.to_owned().concat("/v1/devices/state")
}

} // verus!
