#![allow(non_snake_case)]
use vstd::prelude::*;

use crate::json::{JVal, JsonValue};

verus! {

/// An RGB colour: three 8-bit channels. Plain enough to stand for itself in
/// specifications.
#[derive(Clone, Copy, Debug, PartialEq, Eq, Structural)]
pub struct Color {
    pub r: u8,
    pub g: u8,
    pub b: u8,
}

impl View for Color {
    type V = Color;

    open spec fn view(&self) -> Color {
        *self
    }
}

/// One property of a device's state, discriminated by its wire key. Exactly
/// one variant is populated per wire entry; an unknown key fails decoding.
#[derive(Debug)]
pub enum GoveeDeviceProperty {
    /// Wire key `online`; the only property decoded tolerantly (boolean or
    /// the strings `"true"`/`"false"`).
    Online(bool),
    /// Wire key `powerState`; a raw string such as `"on"`/`"off"`, not
    /// validated against an enumeration.
    PowerState(String),
    /// Wire key `brightness`; a percentage, not range-checked at this layer.
    Brightness(i16),
    /// Wire key `color`.
    Color(Color),
    /// Wire key `colorTem`; a raw Kelvin-scale integer.
    ColorTem(i16),
    /// Wire key `colorTemInKelvin`; a distinct wire key with the same unit,
    /// deliberately kept apart from `ColorTem`.
    ColorTemInKelvin(i16),
}

/// Mathematical model of a [`GoveeDeviceProperty`].
pub enum GoveeDevicePropertyView {
    Online(bool),
    PowerState(Seq<char>),
    Brightness(i16),
    Color(Color),
    ColorTem(i16),
    ColorTemInKelvin(i16),
}

impl View for GoveeDeviceProperty {
    type V = GoveeDevicePropertyView;

    open spec fn view(&self) -> GoveeDevicePropertyView {
        match self {
            GoveeDeviceProperty::Online(b) => GoveeDevicePropertyView::Online(*b),
            GoveeDeviceProperty::PowerState(s) => GoveeDevicePropertyView::PowerState(s@),
            GoveeDeviceProperty::Brightness(v) => GoveeDevicePropertyView::Brightness(*v),
            GoveeDeviceProperty::Color(c) => GoveeDevicePropertyView::Color(*c),
            GoveeDeviceProperty::ColorTem(v) => GoveeDevicePropertyView::ColorTem(*v),
            GoveeDeviceProperty::ColorTemInKelvin(v) => GoveeDevicePropertyView::ColorTemInKelvin(
                *v,
            ),
        }
    }
}

/// The models of a sequence of device properties, element by element.
pub open spec fn prop_views_of(s: Seq<GoveeDeviceProperty>) -> Seq<GoveeDevicePropertyView> {
    Seq::new(s.len(), |i: int| s[i]@)
}

/// The models of a sequence of strings, element by element.
pub open spec fn str_views_of(s: Seq<String>) -> Seq<Seq<char>> {
    Seq::new(s.len(), |i: int| s[i]@)
}

/// The models of a sequence of devices, element by element.
pub open spec fn device_views_of(s: Seq<GoveeDevice>) -> Seq<GoveeDeviceView> {
    Seq::new(s.len(), |i: int| s[i]@)
}

/// A decoding failure: the wire payload did not match the expected schema.
/// Local and non-retryable; never conflated with transport failures, which
/// this layer does not see.
#[derive(Debug)]
pub enum DecodeError {
    /// A property entry carried a key outside the closed set of recognized
    /// property names; the key is reported.
    UnrecognizedProperty(String),
    /// The `online` property was neither a JSON boolean nor one of the exact
    /// strings `"true"`/`"false"`; the original value is reported.
    InvalidBoolean(JsonValue),
    /// The envelope or a field inside it had the wrong shape; the reason
    /// names the offending part.
    MalformedEnvelope(String),
}

/// Mathematical model of a [`DecodeError`].
pub enum DecodeErrorView {
    UnrecognizedProperty(Seq<char>),
    InvalidBoolean(JVal),
    MalformedEnvelope(Seq<char>),
}

impl View for DecodeError {
    type V = DecodeErrorView;

    open spec fn view(&self) -> DecodeErrorView {
        match self {
            DecodeError::UnrecognizedProperty(k) => DecodeErrorView::UnrecognizedProperty(k@),
            DecodeError::InvalidBoolean(v) => DecodeErrorView::InvalidBoolean(v@),
            DecodeError::MalformedEnvelope(s) => DecodeErrorView::MalformedEnvelope(s@),
        }
    }
}

/// The models of both sides of a decode result.
pub open spec fn result_view<T: View, E: View>(r: Result<T, E>) -> Result<T::V, E::V> {
    match r {
        Ok(t) => Ok(t@),
        Err(e) => Err(e@),
    }
}

/// The state of one device: its identifiers and the properties as received,
/// order kept and duplicates preserved.
#[derive(Debug)]
pub struct GoveeDataDeviceStatus {
    pub device: String,
    pub model: String,
    pub properties: Vec<GoveeDeviceProperty>,
}

/// Mathematical model of a [`GoveeDataDeviceStatus`].
pub struct GoveeDataDeviceStatusView {
    pub device: Seq<char>,
    pub model: Seq<char>,
    pub properties: Seq<GoveeDevicePropertyView>,
}

impl View for GoveeDataDeviceStatus {
    type V = GoveeDataDeviceStatusView;

    open spec fn view(&self) -> GoveeDataDeviceStatusView {
        GoveeDataDeviceStatusView {
            device: self.device@,
            model: self.model@,
            properties: prop_views_of(self.properties@),
        }
    }
}

/// The envelope of a device-state response: status code, message, and the
/// payload if one was sent. An absent payload is a valid decode result, not
/// a failure.
#[derive(Debug)]
pub struct ApiResponseGoveeDeviceState {
    pub code: i16,
    pub message: String,
    pub data: Option<GoveeDataDeviceStatus>,
}

/// Mathematical model of an [`ApiResponseGoveeDeviceState`].
pub struct ApiResponseGoveeDeviceStateView {
    pub code: i16,
    pub message: Seq<char>,
    pub data: Option<GoveeDataDeviceStatusView>,
}

impl View for ApiResponseGoveeDeviceState {
    type V = ApiResponseGoveeDeviceStateView;

    open spec fn view(&self) -> ApiResponseGoveeDeviceStateView {
        ApiResponseGoveeDeviceStateView {
            code: self.code,
            message: self.message@,
            data: match &self.data {
                Some(d) => Some(d@),
                None => None,
            },
        }
    }
}

/// The colour-temperature range a device supports.
#[derive(Clone, Copy, Debug, PartialEq, Eq, Structural)]
pub struct ColorTemRange {
    pub min: i16,
    pub max: i16,
}

/// Capability metadata for colour temperature: its supported range.
#[derive(Clone, Copy, Debug, PartialEq, Eq, Structural)]
pub struct ColorTem {
    pub range: ColorTemRange,
}

/// Capability metadata of a device; currently the colour-temperature range.
#[derive(Clone, Copy, Debug, PartialEq, Eq, Structural)]
pub struct Properties {
    pub colorTem: ColorTem,
}

impl View for ColorTemRange {
    type V = ColorTemRange;

    open spec fn view(&self) -> ColorTemRange {
        *self
    }
}

impl View for ColorTem {
    type V = ColorTem;

    open spec fn view(&self) -> ColorTem {
        *self
    }
}

impl View for Properties {
    type V = Properties;

    open spec fn view(&self) -> Properties {
        *self
    }
}

/// Static metadata about one device, populated only by decoding a listing
/// response and never mutated afterwards.
#[derive(Debug)]
pub struct GoveeDevice {
    pub device: String,
    pub model: String,
    pub deviceName: String,
    pub controllable: bool,
    pub retrievable: bool,
    pub supportCmds: Vec<String>,
    pub properties: Properties,
}

/// Mathematical model of a [`GoveeDevice`].
pub struct GoveeDeviceView {
    pub device: Seq<char>,
    pub model: Seq<char>,
    pub deviceName: Seq<char>,
    pub controllable: bool,
    pub retrievable: bool,
    pub supportCmds: Seq<Seq<char>>,
    pub properties: Properties,
}

impl View for GoveeDevice {
    type V = GoveeDeviceView;

    open spec fn view(&self) -> GoveeDeviceView {
        GoveeDeviceView {
            device: self.device@,
            model: self.model@,
            deviceName: self.deviceName@,
            controllable: self.controllable,
            retrievable: self.retrievable,
            supportCmds: str_views_of(self.supportCmds@),
            properties: self.properties,
        }
    }
}

/// The list of devices a listing response carries.
#[derive(Debug)]
pub struct GoveeData {
    pub devices: Vec<GoveeDevice>,
}

/// Mathematical model of a [`GoveeData`].
pub struct GoveeDataView {
    pub devices: Seq<GoveeDeviceView>,
}

impl View for GoveeData {
    type V = GoveeDataView;

    open spec fn view(&self) -> GoveeDataView {
        GoveeDataView { devices: device_views_of(self.devices@) }
    }
}

/// The envelope of a device listing. The status code may be absent on the
/// wire; an absent code decodes to nothing rather than being defaulted, so a
/// caller can tell "no code sent" from any concrete code.
#[derive(Debug)]
pub struct ApiResponseGoveeDevices {
    pub code: Option<i16>,
    pub message: String,
    pub data: Option<GoveeData>,
}

/// Mathematical model of an [`ApiResponseGoveeDevices`].
pub struct ApiResponseGoveeDevicesView {
    pub code: Option<i16>,
    pub message: Seq<char>,
    pub data: Option<GoveeDataView>,
}

impl View for ApiResponseGoveeDevices {
    type V = ApiResponseGoveeDevicesView;

    open spec fn view(&self) -> ApiResponseGoveeDevicesView {
        ApiResponseGoveeDevicesView {
            code: self.code,
            message: self.message@,
            data: match &self.data {
                Some(d) => Some(d@),
                None => None,
            },
        }
    }
}

/// The envelope of an appliance listing: the same shape as a device listing,
/// kept as its own type because the two come from different endpoints.
#[derive(Debug)]
pub struct ApiResponseGoveeAppliances {
    pub code: Option<i16>,
    pub message: String,
    pub data: Option<GoveeData>,
}

/// Mathematical model of an [`ApiResponseGoveeAppliances`].
pub struct ApiResponseGoveeAppliancesView {
    pub code: Option<i16>,
    pub message: Seq<char>,
    pub data: Option<GoveeDataView>,
}

impl View for ApiResponseGoveeAppliances {
    type V = ApiResponseGoveeAppliancesView;

    open spec fn view(&self) -> ApiResponseGoveeAppliancesView {
        ApiResponseGoveeAppliancesView {
            code: self.code,
            message: self.message@,
            data: match &self.data {
                Some(d) => Some(d@),
                None => None,
            },
        }
    }
}

/// A command to send to a device: a name/value pair such as
/// `name = "turn", value = "on"`. Never decoded from the wire, only encoded.
#[derive(Clone, Debug)]
pub struct GoveeCommand {
    pub name: String,
    pub value: String,
}

/// Mathematical model of a [`GoveeCommand`].
pub struct GoveeCommandView {
    pub name: Seq<char>,
    pub value: Seq<char>,
}

impl View for GoveeCommand {
    type V = GoveeCommandView;

    open spec fn view(&self) -> GoveeCommandView {
        GoveeCommandView { name: self.name@, value: self.value@ }
    }
}

/// A control request: the target device and model, and the command to send.
#[derive(Clone, Debug)]
pub struct PayloadBody {
    pub device: String,
    pub model: String,
    pub cmd: GoveeCommand,
}

/// Mathematical model of a [`PayloadBody`].
pub struct PayloadBodyView {
    pub device: Seq<char>,
    pub model: Seq<char>,
    pub cmd: GoveeCommandView,
}

impl View for PayloadBody {
    type V = PayloadBodyView;

    open spec fn view(&self) -> PayloadBodyView {
        PayloadBodyView { device: self.device@, model: self.model@, cmd: self.cmd@ }
    }
}

} // verus!
