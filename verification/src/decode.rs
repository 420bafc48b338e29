use vstd::prelude::*;

use crate::govee::{
    ApiResponseGoveeAppliances, ApiResponseGoveeAppliancesView, ApiResponseGoveeDevices,
    ApiResponseGoveeDevicesView, ApiResponseGoveeDeviceState, ApiResponseGoveeDeviceStateView,
    Color, ColorTem, ColorTemRange, DecodeError, DecodeErrorView, GoveeCommand, GoveeCommandView,
    GoveeData, GoveeDataDeviceStatus, GoveeDataDeviceStatusView, GoveeDataView, GoveeDevice,
    GoveeDeviceProperty, GoveeDevicePropertyView, GoveeDeviceView, PayloadBody, PayloadBodyView,
    Properties, device_views_of, prop_views_of, result_view,
};
use crate::json::{
    JVal, JsonValue, jlookup, jmembers_of, json_of, jval_of, jvals_of, lemma_jmembers_of_index,
    lemma_jvals_of_index, obj_get, parse_json,
};

verus! {

/// The value of `v` as a 16-bit integer, if it is an integer in range.
pub open spec fn spec_i16_of(v: JVal) -> Option<i16> {
    match v {
        JVal::Int(i) => if -32768 <= i <= 32767 {
            Some(i as i16)
        } else {
            None
        },
        _ => None,
    }
}

/// Reads `v` as a 16-bit integer, if it is an integer in range.
fn i16_of(v: &JsonValue) -> (r: Option<i16>)
    ensures
        r == spec_i16_of(v@),
{
    match v {
        JsonValue::Int(i) => {
            let i = *i;
            if -32768 <= i && i <= 32767 {
                Some(i as i16)
            } else {
                None
            }
        },
        _ => None,
    }
}

/// The value of `v` as an 8-bit colour channel, if it is an integer in range.
pub open spec fn spec_u8_of(v: JVal) -> Option<u8> {
    match v {
        JVal::Int(i) => if 0 <= i <= 255 {
            Some(i as u8)
        } else {
            None
        },
        _ => None,
    }
}

/// Reads `v` as an 8-bit colour channel, if it is an integer in range.
fn u8_of(v: &JsonValue) -> (r: Option<u8>)
    ensures
        r == spec_u8_of(v@),
{
    match v {
        JsonValue::Int(i) => {
            let i = *i;
            if 0 <= i && i <= 255 {
                Some(i as u8)
            } else {
                None
            }
        },
        _ => None,
    }
}

/// What the tolerant boolean rule yields for `v`: the boolean itself for a
/// JSON boolean, `true`/`false` for exactly the strings `"true"`/`"false"`,
/// and an `InvalidBoolean` failure carrying `v` for everything else.
pub open spec fn spec_decode_bool(v: JVal) -> Result<bool, DecodeErrorView> {
    match v {
        JVal::Bool(b) => Ok(b),
        JVal::Str(s) => if s == "true"@ {
            Ok(true)
        } else if s == "false"@ {
            Ok(false)
        } else {
            Err(DecodeErrorView::InvalidBoolean(v))
        },
        _ => Err(DecodeErrorView::InvalidBoolean(v)),
    }
}

/// Decodes a boolean tolerantly: accepts the JSON booleans and exactly the
/// strings `"true"`/`"false"` (case-sensitive), nothing else. This rule is
/// applied to the `online` property only, whose wire encoding varies between
/// firmware revisions; every other boolean field is decoded strictly.
pub fn decode_bool(v: &JsonValue) -> (r: Result<bool, DecodeError>)
    ensures
        result_view(r) == spec_decode_bool(v@),
{
    match v {
        JsonValue::Bool(b) => Ok(*b),
        JsonValue::Str(s) => {
            if *s == "true".to_owned() {
                Ok(true)
            } else if *s == "false".to_owned() {
                Ok(false)
            } else {
                Err(DecodeError::InvalidBoolean(crate::json::clone_json(v)))
            }
        },
        _ => Err(DecodeError::InvalidBoolean(crate::json::clone_json(v))),
    }
}

/// What decoding an RGB object yields: all three channels `r`, `g`, `b`
/// present as integers within 0..=255, or a shape failure.
pub open spec fn spec_decode_color(v: JVal) -> Result<Color, DecodeErrorView> {
    match v {
        JVal::Obj(members) => {
            let ro = jlookup(members, "r"@);
            let go = jlookup(members, "g"@);
            let bo = jlookup(members, "b"@);
            if ro is Some && go is Some && bo is Some && spec_u8_of(ro->0) is Some && spec_u8_of(
                go->0,
            ) is Some && spec_u8_of(bo->0) is Some {
                Ok(
                    Color {
                        r: spec_u8_of(ro->0)->0,
                        g: spec_u8_of(go->0)->0,
                        b: spec_u8_of(bo->0)->0,
                    },
                )
            } else {
                Err(
                    DecodeErrorView::MalformedEnvelope(
                        "color must be an object with integer channels r, g and b in 0..=255"@,
                    ),
                )
            }
        },
        _ => Err(
            DecodeErrorView::MalformedEnvelope(
                "color must be an object with integer channels r, g and b in 0..=255"@,
            ),
        ),
    }
}

/// Decodes an RGB colour object structurally: the three channels must be
/// integers in 0..=255; other members are ignored.
pub fn decode_color(v: &JsonValue) -> (r: Result<Color, DecodeError>)
    ensures
        result_view(r) == spec_decode_color(v@),
{
    match v {
        JsonValue::Obj(members) => {
            let ro = obj_get(members, "r");
            let go = obj_get(members, "g");
            let bo = obj_get(members, "b");
            match (ro, go, bo) {
                (Some(rv), Some(gv), Some(bv)) => {
                    match (u8_of(rv), u8_of(gv), u8_of(bv)) {
                        (Some(rc), Some(gc), Some(bc)) => Ok(Color { r: rc, g: gc, b: bc }),
                        _ => Err(
                            DecodeError::MalformedEnvelope(
                                "color must be an object with integer channels r, g and b in 0..=255".to_owned(),
                            ),
                        ),
                    }
                },
                _ => Err(
                    DecodeError::MalformedEnvelope(
                        "color must be an object with integer channels r, g and b in 0..=255".to_owned(),
                    ),
                ),
            }
        },
        _ => Err(
            DecodeError::MalformedEnvelope(
                "color must be an object with integer channels r, g and b in 0..=255".to_owned(),
            ),
        ),
    }
}

/// Whether `key` names one of the six recognized device properties.
pub open spec fn recognized_property_key(key: Seq<char>) -> bool {
    ||| key == "online"@
    ||| key == "powerState"@
    ||| key == "brightness"@
    ||| key == "color"@
    ||| key == "colorTem"@
    ||| key == "colorTemInKelvin"@
}

/// What decoding one property member yields, dispatched on the wire key. An
/// unrecognized key fails with `UnrecognizedProperty` naming it; a recognized
/// key whose value has the wrong shape fails with the matching reason.
pub open spec fn spec_decode_property_entry(key: Seq<char>, value: JVal) -> Result<
    GoveeDevicePropertyView,
    DecodeErrorView,
> {
    if key == "online"@ {
        match spec_decode_bool(value) {
            Ok(b) => Ok(GoveeDevicePropertyView::Online(b)),
            Err(e) => Err(e),
        }
    } else if key == "powerState"@ {
        match value {
            JVal::Str(s) => Ok(GoveeDevicePropertyView::PowerState(s)),
            _ => Err(DecodeErrorView::MalformedEnvelope("powerState must be a string"@)),
        }
    } else if key == "brightness"@ {
        match spec_i16_of(value) {
            Some(i) => Ok(GoveeDevicePropertyView::Brightness(i)),
            None => Err(DecodeErrorView::MalformedEnvelope("brightness must be a 16-bit integer"@)),
        }
    } else if key == "color"@ {
        match spec_decode_color(value) {
            Ok(c) => Ok(GoveeDevicePropertyView::Color(c)),
            Err(e) => Err(e),
        }
    } else if key == "colorTem"@ {
        match spec_i16_of(value) {
            Some(i) => Ok(GoveeDevicePropertyView::ColorTem(i)),
            None => Err(DecodeErrorView::MalformedEnvelope("colorTem must be a 16-bit integer"@)),
        }
    } else if key == "colorTemInKelvin"@ {
        match spec_i16_of(value) {
            Some(i) => Ok(GoveeDevicePropertyView::ColorTemInKelvin(i)),
            None => Err(
                DecodeErrorView::MalformedEnvelope("colorTemInKelvin must be a 16-bit integer"@),
            ),
        }
    } else {
        Err(DecodeErrorView::UnrecognizedProperty(key))
    }
}

/// Decodes one property member once its entry object has been opened.
pub fn decode_property_entry(key: &String, value: &JsonValue) -> (r: Result<
    GoveeDeviceProperty,
    DecodeError,
>)
    ensures
        result_view(r) == spec_decode_property_entry(key@, value@),
{
    if *key == "online".to_owned() {
        match decode_bool(value) {
            Ok(b) => Ok(GoveeDeviceProperty::Online(b)),
            Err(e) => Err(e),
        }
    } else if *key == "powerState".to_owned() {
        match value {
            JsonValue::Str(s) => Ok(GoveeDeviceProperty::PowerState(s.clone())),
            _ => Err(DecodeError::MalformedEnvelope("powerState must be a string".to_owned())),
        }
    } else if *key == "brightness".to_owned() {
        match i16_of(value) {
            Some(i) => Ok(GoveeDeviceProperty::Brightness(i)),
            None => Err(
                DecodeError::MalformedEnvelope("brightness must be a 16-bit integer".to_owned()),
            ),
        }
    } else if *key == "color".to_owned() {
        match decode_color(value) {
            Ok(c) => Ok(GoveeDeviceProperty::Color(c)),
            Err(e) => Err(e),
        }
    } else if *key == "colorTem".to_owned() {
        match i16_of(value) {
            Some(i) => Ok(GoveeDeviceProperty::ColorTem(i)),
            None => Err(
                DecodeError::MalformedEnvelope("colorTem must be a 16-bit integer".to_owned()),
            ),
        }
    } else if *key == "colorTemInKelvin".to_owned() {
        match i16_of(value) {
            Some(i) => Ok(GoveeDeviceProperty::ColorTemInKelvin(i)),
            None => Err(
                DecodeError::MalformedEnvelope(
                    "colorTemInKelvin must be a 16-bit integer".to_owned(),
                ),
            ),
        }
    } else {
        Err(DecodeError::UnrecognizedProperty(key.clone()))
    }
}

/// What decoding one property entry yields: the entry must be an object with
/// exactly one member, which is then dispatched on its key.
pub open spec fn spec_decode_property(v: JVal) -> Result<
    GoveeDevicePropertyView,
    DecodeErrorView,
> {
    match v {
        JVal::Obj(members) => if members.len() == 1 {
            spec_decode_property_entry(members[0].0, members[0].1)
        } else {
            Err(
                DecodeErrorView::MalformedEnvelope(
                    "property entry must be an object with exactly one key"@,
                ),
            )
        },
        _ => Err(
            DecodeErrorView::MalformedEnvelope(
                "property entry must be an object with exactly one key"@,
            ),
        ),
    }
}

/// Decodes one element of a `properties` array: a single-member object whose
/// key selects the variant.
pub fn decode_property(v: &JsonValue) -> (r: Result<GoveeDeviceProperty, DecodeError>)
    ensures
        result_view(r) == spec_decode_property(v@),
{
    match v {
        JsonValue::Obj(members) => {
            if members.len() == 1 {
                proof {
                    lemma_jmembers_of_index(members@);
                }
                decode_property_entry(&members[0].0, &members[0].1)
            } else {
                proof {
                    lemma_jmembers_of_index(members@);
                }
                Err(
                    DecodeError::MalformedEnvelope(
                        "property entry must be an object with exactly one key".to_owned(),
                    ),
                )
            }
        },
        _ => Err(
            DecodeError::MalformedEnvelope(
                "property entry must be an object with exactly one key".to_owned(),
            ),
        ),
    }
}

/// What decoding every element of `items` with `f` yields: the decoded
/// elements in order, or the first failure.
pub open spec fn spec_decode_seq<T>(
    f: spec_fn(JVal) -> Result<T, DecodeErrorView>,
    items: Seq<JVal>,
) -> Result<Seq<T>, DecodeErrorView>
    decreases items.len(),
{
    if items.len() == 0 {
        Ok(Seq::empty())
    } else {
        match spec_decode_seq(f, items.drop_last()) {
            Err(e) => Err(e),
            Ok(front) => match f(items.last()) {
                Err(e) => Err(e),
                Ok(t) => Ok(front.push(t)),
            },
        }
    }
}

/// If every element before `i` decodes and element `i` fails, the whole
/// sequence fails with that element's error.
pub proof fn lemma_decode_seq_error<T>(
    f: spec_fn(JVal) -> Result<T, DecodeErrorView>,
    items: Seq<JVal>,
    i: int,
)
    requires
        0 <= i < items.len(),
        spec_decode_seq(f, items.subrange(0, i)) is Ok,
        f(items[i]) is Err,
    ensures
        spec_decode_seq(f, items) is Err,
        spec_decode_seq(f, items) == Err::<Seq<T>, DecodeErrorView>(f(items[i])->Err_0),
    decreases items.len(),
{
    if i == items.len() - 1 {
        assert(items.drop_last() =~= items.subrange(0, i));
    } else {
        let front = items.drop_last();
        assert(front.subrange(0, i) =~= items.subrange(0, i));
        lemma_decode_seq_error(f, front, i);
    }
}

/// The value of the member keyed `key`, if it is a string.
pub open spec fn spec_str_field(members: Seq<(Seq<char>, JVal)>, key: Seq<char>) -> Option<
    Seq<char>,
> {
    match jlookup(members, key) {
        Some(JVal::Str(s)) => Some(s),
        _ => None,
    }
}

/// Borrows the string member keyed `key`, if there is one.
fn str_field<'a>(members: &'a Vec<(String, JsonValue)>, key: &str) -> (r: Option<&'a String>)
    ensures
        match r {
            Some(s) => spec_str_field(jmembers_of(members@), key@) == Some(s@),
            None => spec_str_field(jmembers_of(members@), key@) is None,
        },
{
    match obj_get(members, key) {
        Some(JsonValue::Str(s)) => Some(s),
        _ => None,
    }
}

/// The value of the member keyed `key`, if it is a boolean. Strict: the
/// tolerant rule for `online` does not apply here.
pub open spec fn spec_bool_field(members: Seq<(Seq<char>, JVal)>, key: Seq<char>) -> Option<bool> {
    match jlookup(members, key) {
        Some(JVal::Bool(b)) => Some(b),
        _ => None,
    }
}

/// Reads the boolean member keyed `key`, if there is one; strict.
fn bool_field(members: &Vec<(String, JsonValue)>, key: &str) -> (r: Option<bool>)
    ensures
        r == spec_bool_field(jmembers_of(members@), key@),
{
    match obj_get(members, key) {
        Some(JsonValue::Bool(b)) => Some(*b),
        _ => None,
    }
}

/// The value of the member keyed `key`, if it is a 16-bit integer.
pub open spec fn spec_i16_field(members: Seq<(Seq<char>, JVal)>, key: Seq<char>) -> Option<i16> {
    match jlookup(members, key) {
        Some(x) => spec_i16_of(x),
        None => None,
    }
}

/// Reads the 16-bit integer member keyed `key`, if there is one.
fn i16_field(members: &Vec<(String, JsonValue)>, key: &str) -> (r: Option<i16>)
    ensures
        r == spec_i16_field(jmembers_of(members@), key@),
{
    match obj_get(members, key) {
        Some(x) => i16_of(x),
        None => None,
    }
}

/// The elements of the member keyed `key`, if it is an array.
pub open spec fn spec_arr_field(members: Seq<(Seq<char>, JVal)>, key: Seq<char>) -> Option<
    Seq<JVal>,
> {
    match jlookup(members, key) {
        Some(JVal::Arr(items)) => Some(items),
        _ => None,
    }
}

/// Borrows the array member keyed `key`, if there is one.
fn arr_field<'a>(members: &'a Vec<(String, JsonValue)>, key: &str) -> (r: Option<
    &'a Vec<JsonValue>,
>)
    ensures
        match r {
            Some(items) => spec_arr_field(jmembers_of(members@), key@) == Some(jvals_of(items@)),
            None => spec_arr_field(jmembers_of(members@), key@) is None,
        },
{
    match obj_get(members, key) {
        Some(JsonValue::Arr(items)) => Some(items),
        _ => None,
    }
}

/// The members of the member keyed `key`, if it is an object.
pub open spec fn spec_obj_field(members: Seq<(Seq<char>, JVal)>, key: Seq<char>) -> Option<
    Seq<(Seq<char>, JVal)>,
> {
    match jlookup(members, key) {
        Some(JVal::Obj(inner)) => Some(inner),
        _ => None,
    }
}

/// Borrows the object member keyed `key`, if there is one.
fn obj_field<'a>(members: &'a Vec<(String, JsonValue)>, key: &str) -> (r: Option<
    &'a Vec<(String, JsonValue)>,
>)
    ensures
        match r {
            Some(inner) => spec_obj_field(jmembers_of(members@), key@) == Some(jmembers_of(inner@)),
            None => spec_obj_field(jmembers_of(members@), key@) is None,
        },
{
    match obj_get(members, key) {
        Some(JsonValue::Obj(inner)) => Some(inner),
        _ => None,
    }
}

/// The payload under `key`, treating an absent member and an explicit JSON
/// null alike as "no payload sent".
pub open spec fn spec_payload_field(members: Seq<(Seq<char>, JVal)>, key: Seq<char>) -> Option<
    JVal,
> {
    match jlookup(members, key) {
        None => None,
        Some(JVal::Null) => None,
        Some(x) => Some(x),
    }
}

/// Borrows the payload member keyed `key`; an absent member and a JSON null
/// alike count as no payload.
fn payload_field<'a>(members: &'a Vec<(String, JsonValue)>, key: &str) -> (r: Option<
    &'a JsonValue,
>)
    ensures
        match r {
            Some(x) => spec_payload_field(jmembers_of(members@), key@) == Some(x@),
            None => spec_payload_field(jmembers_of(members@), key@) is None,
        },
{
    match obj_get(members, key) {
        Some(JsonValue::Null) => None,
        Some(x) => Some(x),
        None => None,
    }
}

/// The property decoder as a value, so that sequence decoding of property
/// arrays is stated over one shared function.
pub open spec fn prop_decoder() -> spec_fn(JVal) -> Result<
    GoveeDevicePropertyView,
    DecodeErrorView,
> {
    |v: JVal| spec_decode_property(v)
}

/// What decoding a `properties` array yields: every entry decoded in order,
/// duplicates preserved, or the first failure.
pub open spec fn spec_decode_properties(items: Seq<JVal>) -> Result<
    Seq<GoveeDevicePropertyView>,
    DecodeErrorView,
> {
    spec_decode_seq(prop_decoder(), items)
}

/// Decodes a `properties` array entry by entry, keeping order and
/// duplicates; the first entry that fails decides the failure.
pub fn decode_properties(items: &Vec<JsonValue>) -> (r: Result<
    Vec<GoveeDeviceProperty>,
    DecodeError,
>)
    ensures
        match r {
            Ok(props) => spec_decode_properties(jvals_of(items@)) == Ok::<
                Seq<GoveeDevicePropertyView>,
                DecodeErrorView,
            >(prop_views_of(props@)),
            Err(e) => spec_decode_properties(jvals_of(items@)) == Err::<
                Seq<GoveeDevicePropertyView>,
                DecodeErrorView,
            >(e@),
        },
{
    proof {
        lemma_jvals_of_index(items@);
    }
    let ghost m = jvals_of(items@);
    let n = items.len();
    let mut out: Vec<GoveeDeviceProperty> = Vec::new();
    let mut i: usize = 0;
    proof {
        assert(m.subrange(0, 0) =~= Seq::<JVal>::empty());
        assert(prop_views_of(out@) =~= Seq::<GoveeDevicePropertyView>::empty());
    }
    while i < n
        invariant
            n == items@.len(),
            m == jvals_of(items@),
            m.len() == n,
            forall|j: int| 0 <= j < n ==> m[j] == jval_of(items@[j]),
            0 <= i <= n,
            out@.len() == i,
            spec_decode_properties(m.subrange(0, i as int)) == Ok::<
                Seq<GoveeDevicePropertyView>,
                DecodeErrorView,
            >(prop_views_of(out@)),
        decreases n - i,
    {
        match decode_property(&items[i]) {
            Ok(p) => {
                let ghost prev = out@;
                out.push(p);
                proof {
                    let sub = m.subrange(0, (i + 1) as int);
                    assert(sub.drop_last() =~= m.subrange(0, i as int));
                    assert(sub.last() == m[i as int]);
                    assert(prop_views_of(out@) =~= prop_views_of(prev).push(p@));
                }
                i += 1;
            },
            Err(e) => {
                proof {
                    lemma_decode_seq_error(prop_decoder(), m, i as int);
                }
                return Err(e);
            },
        }
    }
    proof {
        assert(m.subrange(0, n as int) =~= m);
    }
    Ok(out)
}

/// What decoding a device-state payload yields: the device and model
/// identifiers and the decoded property array.
pub open spec fn spec_decode_state_data(v: JVal) -> Result<
    GoveeDataDeviceStatusView,
    DecodeErrorView,
> {
    match v {
        JVal::Obj(members) => match spec_str_field(members, "device"@) {
            None => Err(DecodeErrorView::MalformedEnvelope("device must be a string"@)),
            Some(device) => match spec_str_field(members, "model"@) {
                None => Err(DecodeErrorView::MalformedEnvelope("model must be a string"@)),
                Some(model) => match spec_arr_field(members, "properties"@) {
                    None => Err(
                        DecodeErrorView::MalformedEnvelope("properties must be an array"@),
                    ),
                    Some(items) => match spec_decode_properties(items) {
                        Ok(props) => Ok(
                            GoveeDataDeviceStatusView { device, model, properties: props },
                        ),
                        Err(e) => Err(e),
                    },
                },
            },
        },
        _ => Err(DecodeErrorView::MalformedEnvelope("device state data must be an object"@)),
    }
}

/// Decodes the payload of a device-state response: `device`, `model`, and
/// the `properties` array.
pub fn decode_state_data(v: &JsonValue) -> (r: Result<GoveeDataDeviceStatus, DecodeError>)
    ensures
        result_view(r) == spec_decode_state_data(v@),
{
    match v {
        JsonValue::Obj(members) => {
            let device = match str_field(members, "device") {
                Some(s) => s.clone(),
                None => {
                    return Err(DecodeError::MalformedEnvelope("device must be a string".to_owned()));
                },
            };
            let model = match str_field(members, "model") {
                Some(s) => s.clone(),
                None => {
                    return Err(DecodeError::MalformedEnvelope("model must be a string".to_owned()));
                },
            };
            let items = match arr_field(members, "properties") {
                Some(items) => items,
                None => {
                    return Err(
                        DecodeError::MalformedEnvelope("properties must be an array".to_owned()),
                    );
                },
            };
            match decode_properties(items) {
                Ok(props) => Ok(GoveeDataDeviceStatus { device, model, properties: props }),
                Err(e) => Err(e),
            }
        },
        _ => Err(DecodeError::MalformedEnvelope("device state data must be an object".to_owned())),
    }
}

/// What decoding a device-state envelope yields: a required 16-bit status
/// code, a required message, and the payload if one was sent. An absent or
/// null `data` member is a successful, payload-absent decode, not a failure.
pub open spec fn spec_decode_state_envelope(v: JVal) -> Result<
    ApiResponseGoveeDeviceStateView,
    DecodeErrorView,
> {
    match v {
        JVal::Obj(members) => match spec_i16_field(members, "code"@) {
            None => Err(DecodeErrorView::MalformedEnvelope("code must be a 16-bit integer"@)),
            Some(code) => match spec_str_field(members, "message"@) {
                None => Err(DecodeErrorView::MalformedEnvelope("message must be a string"@)),
                Some(message) => match spec_payload_field(members, "data"@) {
                    None => Ok(ApiResponseGoveeDeviceStateView { code, message, data: None }),
                    Some(dv) => match spec_decode_state_data(dv) {
                        Ok(d) => Ok(
                            ApiResponseGoveeDeviceStateView { code, message, data: Some(d) },
                        ),
                        Err(e) => Err(e),
                    },
                },
            },
        },
        _ => Err(DecodeErrorView::MalformedEnvelope("envelope must be an object"@)),
    }
}

/// Decodes a device-state response envelope. A missing or null `data`
/// member yields a payload-absent result, distinct from any failure.
pub fn decode_state_envelope(v: &JsonValue) -> (r: Result<
    ApiResponseGoveeDeviceState,
    DecodeError,
>)
    ensures
        result_view(r) == spec_decode_state_envelope(v@),
{
    match v {
        JsonValue::Obj(members) => {
            let code = match i16_field(members, "code") {
                Some(c) => c,
                None => {
                    return Err(
                        DecodeError::MalformedEnvelope("code must be a 16-bit integer".to_owned()),
                    );
                },
            };
            let message = match str_field(members, "message") {
                Some(s) => s.clone(),
                None => {
                    return Err(
                        DecodeError::MalformedEnvelope("message must be a string".to_owned()),
                    );
                },
            };
            match payload_field(members, "data") {
                None => Ok(ApiResponseGoveeDeviceState { code, message, data: None }),
                Some(dv) => match decode_state_data(dv) {
                    Ok(d) => Ok(ApiResponseGoveeDeviceState { code, message, data: Some(d) }),
                    Err(e) => Err(e),
                },
            }
        },
        _ => Err(DecodeError::MalformedEnvelope("envelope must be an object".to_owned())),
    }
}

/// What decoding one element of a `supportCmds` array yields: the command
/// name if the element is a string.
pub open spec fn spec_decode_cmd_name(v: JVal) -> Result<Seq<char>, DecodeErrorView> {
    match v {
        JVal::Str(s) => Ok(s),
        _ => Err(DecodeErrorView::MalformedEnvelope("supportCmds must be an array of strings"@)),
    }
}

/// The command-name decoder as a value, shared by the statements about
/// `supportCmds` arrays.
pub open spec fn cmd_decoder() -> spec_fn(JVal) -> Result<Seq<char>, DecodeErrorView> {
    |v: JVal| spec_decode_cmd_name(v)
}

/// What decoding a `supportCmds` array yields: the command names in order,
/// or a failure on the first non-string element.
pub open spec fn spec_decode_cmds(items: Seq<JVal>) -> Result<Seq<Seq<char>>, DecodeErrorView> {
    spec_decode_seq(cmd_decoder(), items)
}

/// Decodes a `supportCmds` array element by element, keeping order.
pub fn decode_support_cmds(items: &Vec<JsonValue>) -> (r: Result<Vec<String>, DecodeError>)
    ensures
        match r {
            Ok(cmds) => spec_decode_cmds(jvals_of(items@)) == Ok::<
                Seq<Seq<char>>,
                DecodeErrorView,
            >(crate::govee::str_views_of(cmds@)),
            Err(e) => spec_decode_cmds(jvals_of(items@)) == Err::<
                Seq<Seq<char>>,
                DecodeErrorView,
            >(e@),
        },
{
    proof {
        lemma_jvals_of_index(items@);
    }
    let ghost m = jvals_of(items@);
    let n = items.len();
    let mut out: Vec<String> = Vec::new();
    let mut i: usize = 0;
    proof {
        assert(m.subrange(0, 0) =~= Seq::<JVal>::empty());
        assert(crate::govee::str_views_of(out@) =~= Seq::<Seq<char>>::empty());
    }
    while i < n
        invariant
            n == items@.len(),
            m == jvals_of(items@),
            m.len() == n,
            forall|j: int| 0 <= j < n ==> m[j] == jval_of(items@[j]),
            0 <= i <= n,
            out@.len() == i,
            spec_decode_cmds(m.subrange(0, i as int)) == Ok::<
                Seq<Seq<char>>,
                DecodeErrorView,
            >(crate::govee::str_views_of(out@)),
        decreases n - i,
    {
        match &items[i] {
            JsonValue::Str(s) => {
                let ghost prev = out@;
                out.push(s.clone());
                proof {
                    let sub = m.subrange(0, (i + 1) as int);
                    assert(sub.drop_last() =~= m.subrange(0, i as int));
                    assert(sub.last() == m[i as int]);
                    assert(crate::govee::str_views_of(out@) =~= crate::govee::str_views_of(
                        prev,
                    ).push(s@));
                }
                i += 1;
            },
            _ => {
                proof {
                    lemma_decode_seq_error(cmd_decoder(), m, i as int);
                }
                return Err(
                    DecodeError::MalformedEnvelope(
                        "supportCmds must be an array of strings".to_owned(),
                    ),
                );
            },
        }
    }
    proof {
        assert(m.subrange(0, n as int) =~= m);
    }
    Ok(out)
}

/// What decoding a device's capability metadata yields: the colour
/// temperature range under `colorTem.range`, with 16-bit `min` and `max`.
pub open spec fn spec_decode_capabilities(v: JVal) -> Result<Properties, DecodeErrorView> {
    match v {
        JVal::Obj(members) => match spec_obj_field(members, "colorTem"@) {
            Some(ct) => match spec_obj_field(ct, "range"@) {
                Some(rg) => match (spec_i16_field(rg, "min"@), spec_i16_field(rg, "max"@)) {
                    (Some(min), Some(max)) => Ok(
                        Properties { colorTem: ColorTem { range: ColorTemRange { min, max } } },
                    ),
                    _ => Err(
                        DecodeErrorView::MalformedEnvelope(
                            "properties must carry a colorTem range with 16-bit min and max"@,
                        ),
                    ),
                },
                None => Err(
                    DecodeErrorView::MalformedEnvelope(
                        "properties must carry a colorTem range with 16-bit min and max"@,
                    ),
                ),
            },
            None => Err(
                DecodeErrorView::MalformedEnvelope(
                    "properties must carry a colorTem range with 16-bit min and max"@,
                ),
            ),
        },
        _ => Err(
            DecodeErrorView::MalformedEnvelope(
                "properties must carry a colorTem range with 16-bit min and max"@,
            ),
        ),
    }
}

/// Decodes a device's capability metadata: the `colorTem.range` object.
pub fn decode_capabilities(v: &JsonValue) -> (r: Result<Properties, DecodeError>)
    ensures
        result_view(r) == spec_decode_capabilities(v@),
{
    match v {
        JsonValue::Obj(members) => {
            if let Some(ct) = obj_field(members, "colorTem") {
                if let Some(rg) = obj_field(ct, "range") {
                    if let (Some(min), Some(max)) = (i16_field(rg, "min"), i16_field(rg, "max")) {
                        return Ok(
                            Properties { colorTem: ColorTem { range: ColorTemRange { min, max } } },
                        );
                    }
                }
            }
            Err(
                DecodeError::MalformedEnvelope(
                    "properties must carry a colorTem range with 16-bit min and max".to_owned(),
                ),
            )
        },
        _ => Err(
            DecodeError::MalformedEnvelope(
                "properties must carry a colorTem range with 16-bit min and max".to_owned(),
            ),
        ),
    }
}

/// What decoding one device descriptor yields: identifiers and name as
/// strings, strict booleans for the two flags, the supported command names
/// in order, and the capability metadata.
pub open spec fn spec_decode_device(v: JVal) -> Result<GoveeDeviceView, DecodeErrorView> {
    match v {
        JVal::Obj(members) => match spec_str_field(members, "device"@) {
            None => Err(DecodeErrorView::MalformedEnvelope("device must be a string"@)),
            Some(device) => match spec_str_field(members, "model"@) {
                None => Err(DecodeErrorView::MalformedEnvelope("model must be a string"@)),
                Some(model) => match spec_str_field(members, "deviceName"@) {
                    None => Err(
                        DecodeErrorView::MalformedEnvelope("deviceName must be a string"@),
                    ),
                    Some(deviceName) => match spec_bool_field(members, "controllable"@) {
                        None => Err(
                            DecodeErrorView::MalformedEnvelope("controllable must be a boolean"@),
                        ),
                        Some(controllable) => match spec_bool_field(members, "retrievable"@) {
                            None => Err(
                                DecodeErrorView::MalformedEnvelope(
                                    "retrievable must be a boolean"@,
                                ),
                            ),
                            Some(retrievable) => match spec_arr_field(members, "supportCmds"@) {
                                None => Err(
                                    DecodeErrorView::MalformedEnvelope(
                                        "supportCmds must be an array"@,
                                    ),
                                ),
                                Some(cmd_items) => match spec_decode_cmds(cmd_items) {
                                    Err(e) => Err(e),
                                    Ok(supportCmds) => match jlookup(members, "properties"@) {
                                        None => Err(
                                            DecodeErrorView::MalformedEnvelope(
                                                "properties must carry a colorTem range with 16-bit min and max"@,
                                            ),
                                        ),
                                        Some(pv) => match spec_decode_capabilities(pv) {
                                            Err(e) => Err(e),
                                            Ok(properties) => Ok(
                                                GoveeDeviceView {
                                                    device,
                                                    model,
                                                    deviceName,
                                                    controllable,
                                                    retrievable,
                                                    supportCmds,
                                                    properties,
                                                },
                                            ),
                                        },
                                    },
                                },
                            },
                        },
                    },
                },
            },
        },
        _ => Err(DecodeErrorView::MalformedEnvelope("device descriptor must be an object"@)),
    }
}

/// Decodes one device descriptor from a listing response.
pub fn decode_device(v: &JsonValue) -> (r: Result<GoveeDevice, DecodeError>)
    ensures
        result_view(r) == spec_decode_device(v@),
{
    match v {
        JsonValue::Obj(members) => {
            let device = match str_field(members, "device") {
                Some(s) => s.clone(),
                None => {
                    return Err(DecodeError::MalformedEnvelope("device must be a string".to_owned()));
                },
            };
            let model = match str_field(members, "model") {
                Some(s) => s.clone(),
                None => {
                    return Err(DecodeError::MalformedEnvelope("model must be a string".to_owned()));
                },
            };
            let device_name = match str_field(members, "deviceName") {
                Some(s) => s.clone(),
                None => {
                    return Err(
                        DecodeError::MalformedEnvelope("deviceName must be a string".to_owned()),
                    );
                },
            };
            let controllable = match bool_field(members, "controllable") {
                Some(b) => b,
                None => {
                    return Err(
                        DecodeError::MalformedEnvelope("controllable must be a boolean".to_owned()),
                    );
                },
            };
            let retrievable = match bool_field(members, "retrievable") {
                Some(b) => b,
                None => {
                    return Err(
                        DecodeError::MalformedEnvelope("retrievable must be a boolean".to_owned()),
                    );
                },
            };
            let cmd_items = match arr_field(members, "supportCmds") {
                Some(items) => items,
                None => {
                    return Err(
                        DecodeError::MalformedEnvelope("supportCmds must be an array".to_owned()),
                    );
                },
            };
            let support_cmds = match decode_support_cmds(cmd_items) {
                Ok(cmds) => cmds,
                Err(e) => {
                    return Err(e);
                },
            };
            let pv = match obj_get(members, "properties") {
                Some(pv) => pv,
                None => {
                    return Err(
                        DecodeError::MalformedEnvelope(
                            "properties must carry a colorTem range with 16-bit min and max".to_owned(),
                        ),
                    );
                },
            };
            match decode_capabilities(pv) {
                Ok(properties) => Ok(
                    GoveeDevice {
                        device,
                        model,
                        deviceName: device_name,
                        controllable,
                        retrievable,
                        supportCmds: support_cmds,
                        properties,
                    },
                ),
                Err(e) => Err(e),
            }
        },
        _ => Err(DecodeError::MalformedEnvelope("device descriptor must be an object".to_owned())),
    }
}

/// The device-descriptor decoder as a value, shared by the statements about
/// `devices` arrays.
pub open spec fn device_decoder() -> spec_fn(JVal) -> Result<GoveeDeviceView, DecodeErrorView> {
    |v: JVal| spec_decode_device(v)
}

/// What decoding a `devices` array yields: every descriptor decoded in
/// order, or the first failure.
pub open spec fn spec_decode_devices(items: Seq<JVal>) -> Result<
    Seq<GoveeDeviceView>,
    DecodeErrorView,
> {
    spec_decode_seq(device_decoder(), items)
}

/// Decodes a `devices` array descriptor by descriptor, keeping order.
pub fn decode_devices(items: &Vec<JsonValue>) -> (r: Result<Vec<GoveeDevice>, DecodeError>)
    ensures
        match r {
            Ok(devices) => spec_decode_devices(jvals_of(items@)) == Ok::<
                Seq<GoveeDeviceView>,
                DecodeErrorView,
            >(device_views_of(devices@)),
            Err(e) => spec_decode_devices(jvals_of(items@)) == Err::<
                Seq<GoveeDeviceView>,
                DecodeErrorView,
            >(e@),
        },
{
    proof {
        lemma_jvals_of_index(items@);
    }
    let ghost m = jvals_of(items@);
    let n = items.len();
    let mut out: Vec<GoveeDevice> = Vec::new();
    let mut i: usize = 0;
    proof {
        assert(m.subrange(0, 0) =~= Seq::<JVal>::empty());
        assert(device_views_of(out@) =~= Seq::<GoveeDeviceView>::empty());
    }
    while i < n
        invariant
            n == items@.len(),
            m == jvals_of(items@),
            m.len() == n,
            forall|j: int| 0 <= j < n ==> m[j] == jval_of(items@[j]),
            0 <= i <= n,
            out@.len() == i,
            spec_decode_devices(m.subrange(0, i as int)) == Ok::<
                Seq<GoveeDeviceView>,
                DecodeErrorView,
            >(device_views_of(out@)),
        decreases n - i,
    {
        match decode_device(&items[i]) {
            Ok(d) => {
                let ghost prev = out@;
                out.push(d);
                proof {
                    let sub = m.subrange(0, (i + 1) as int);
                    assert(sub.drop_last() =~= m.subrange(0, i as int));
                    assert(sub.last() == m[i as int]);
                    assert(device_views_of(out@) =~= device_views_of(prev).push(out@[i as int]@));
                }
                i += 1;
            },
            Err(e) => {
                proof {
                    lemma_decode_seq_error(device_decoder(), m, i as int);
                }
                return Err(e);
            },
        }
    }
    proof {
        assert(m.subrange(0, n as int) =~= m);
    }
    Ok(out)
}

/// What decoding a listing payload yields: the decoded `devices` array.
pub open spec fn spec_decode_listing_data(v: JVal) -> Result<GoveeDataView, DecodeErrorView> {
    match v {
        JVal::Obj(members) => match spec_arr_field(members, "devices"@) {
            None => Err(DecodeErrorView::MalformedEnvelope("devices must be an array"@)),
            Some(items) => match spec_decode_devices(items) {
                Ok(devices) => Ok(GoveeDataView { devices }),
                Err(e) => Err(e),
            },
        },
        _ => Err(DecodeErrorView::MalformedEnvelope("listing data must be an object"@)),
    }
}

/// Decodes the payload of a listing response: its `devices` array.
pub fn decode_listing_data(v: &JsonValue) -> (r: Result<GoveeData, DecodeError>)
    ensures
        result_view(r) == spec_decode_listing_data(v@),
{
    match v {
        JsonValue::Obj(members) => {
            let items = match arr_field(members, "devices") {
                Some(items) => items,
                None => {
                    return Err(
                        DecodeError::MalformedEnvelope("devices must be an array".to_owned()),
                    );
                },
            };
            match decode_devices(items) {
                Ok(devices) => Ok(GoveeData { devices }),
                Err(e) => Err(e),
            }
        },
        _ => Err(DecodeError::MalformedEnvelope("listing data must be an object".to_owned())),
    }
}

/// What the optional status code of a listing envelope yields: nothing when
/// the member is absent or null, the code when it is a 16-bit integer, and a
/// failure otherwise. An absent code is kept distinct from every concrete
/// code rather than being defaulted.
pub open spec fn spec_decode_opt_code(members: Seq<(Seq<char>, JVal)>) -> Result<
    Option<i16>,
    DecodeErrorView,
> {
    match jlookup(members, "code"@) {
        None => Ok(None),
        Some(JVal::Null) => Ok(None),
        Some(x) => match spec_i16_of(x) {
            Some(c) => Ok(Some(c)),
            None => Err(DecodeErrorView::MalformedEnvelope("code must be a 16-bit integer"@)),
        },
    }
}

/// Reads the optional status code of a listing envelope.
fn decode_opt_code(members: &Vec<(String, JsonValue)>) -> (r: Result<Option<i16>, DecodeError>)
    ensures
        result_view(r) == spec_decode_opt_code(jmembers_of(members@)),
{
    match obj_get(members, "code") {
        None => Ok(None),
        Some(JsonValue::Null) => Ok(None),
        Some(x) => match i16_of(x) {
            Some(c) => Ok(Some(c)),
            None => Err(DecodeError::MalformedEnvelope("code must be a 16-bit integer".to_owned())),
        },
    }
}

/// What decoding a listing envelope yields: an optional 16-bit status code,
/// a required message, and the device list if a payload was sent. An absent
/// or null `data` member is a successful, payload-absent decode.
pub open spec fn spec_decode_listing_envelope(v: JVal) -> Result<
    ApiResponseGoveeDevicesView,
    DecodeErrorView,
> {
    match v {
        JVal::Obj(members) => match spec_decode_opt_code(members) {
            Err(e) => Err(e),
            Ok(code) => match spec_str_field(members, "message"@) {
                None => Err(DecodeErrorView::MalformedEnvelope("message must be a string"@)),
                Some(message) => match spec_payload_field(members, "data"@) {
                    None => Ok(ApiResponseGoveeDevicesView { code, message, data: None }),
                    Some(dv) => match spec_decode_listing_data(dv) {
                        Ok(d) => Ok(
                            ApiResponseGoveeDevicesView { code, message, data: Some(d) },
                        ),
                        Err(e) => Err(e),
                    },
                },
            },
        },
        _ => Err(DecodeErrorView::MalformedEnvelope("envelope must be an object"@)),
    }
}

/// Decodes a device-listing response envelope. A missing or null `data`
/// member yields a payload-absent result, distinct from any failure; a
/// missing `code` member yields no code, distinct from any concrete code.
pub fn decode_listing_envelope(v: &JsonValue) -> (r: Result<ApiResponseGoveeDevices, DecodeError>)
    ensures
        result_view(r) == spec_decode_listing_envelope(v@),
{
    match v {
        JsonValue::Obj(members) => {
            let code = match decode_opt_code(members) {
                Ok(c) => c,
                Err(e) => {
                    return Err(e);
                },
            };
            let message = match str_field(members, "message") {
                Some(s) => s.clone(),
                None => {
                    return Err(
                        DecodeError::MalformedEnvelope("message must be a string".to_owned()),
                    );
                },
            };
            match payload_field(members, "data") {
                None => Ok(ApiResponseGoveeDevices { code, message, data: None }),
                Some(dv) => match decode_listing_data(dv) {
                    Ok(d) => Ok(ApiResponseGoveeDevices { code, message, data: Some(d) }),
                    Err(e) => Err(e),
                },
            }
        },
        _ => Err(DecodeError::MalformedEnvelope("envelope must be an object".to_owned())),
    }
}

/// What decoding an appliance listing yields: the same envelope shape as a
/// device listing, under the appliance response type.
pub open spec fn spec_decode_appliance_envelope(v: JVal) -> Result<
    ApiResponseGoveeAppliancesView,
    DecodeErrorView,
> {
    match spec_decode_listing_envelope(v) {
        Ok(r) => Ok(
            ApiResponseGoveeAppliancesView { code: r.code, message: r.message, data: r.data },
        ),
        Err(e) => Err(e),
    }
}

/// Decodes an appliance-listing response envelope; the wire shape is the
/// same as a device listing.
pub fn decode_appliance_envelope(v: &JsonValue) -> (r: Result<
    ApiResponseGoveeAppliances,
    DecodeError,
>)
    ensures
        result_view(r) == spec_decode_appliance_envelope(v@),
{
    match decode_listing_envelope(v) {
        Ok(env) => Ok(
            ApiResponseGoveeAppliances { code: env.code, message: env.message, data: env.data },
        ),
        Err(e) => Err(e),
    }
}

/// What decoding a control request yields: target device and model, and the
/// command's name/value pair. Used to state the encode/decode round trip.
pub open spec fn spec_decode_control_request(v: JVal) -> Result<PayloadBodyView, DecodeErrorView> {
    match v {
        JVal::Obj(members) => match spec_str_field(members, "device"@) {
            None => Err(DecodeErrorView::MalformedEnvelope("device must be a string"@)),
            Some(device) => match spec_str_field(members, "model"@) {
                None => Err(DecodeErrorView::MalformedEnvelope("model must be a string"@)),
                Some(model) => match spec_obj_field(members, "cmd"@) {
                    None => Err(DecodeErrorView::MalformedEnvelope("cmd must be an object"@)),
                    Some(cmd) => match spec_str_field(cmd, "name"@) {
                        None => Err(
                            DecodeErrorView::MalformedEnvelope("cmd name must be a string"@),
                        ),
                        Some(name) => match spec_str_field(cmd, "value"@) {
                            None => Err(
                                DecodeErrorView::MalformedEnvelope("cmd value must be a string"@),
                            ),
                            Some(value) => Ok(
                                PayloadBodyView {
                                    device,
                                    model,
                                    cmd: GoveeCommandView { name, value },
                                },
                            ),
                        },
                    },
                },
            },
        },
        _ => Err(DecodeErrorView::MalformedEnvelope("control request must be an object"@)),
    }
}

/// Decodes a control request, the inverse of encoding one; the library only
/// ever sends control requests, so this serves callers that need to read one
/// back.
pub fn decode_control_request(v: &JsonValue) -> (r: Result<PayloadBody, DecodeError>)
    ensures
        result_view(r) == spec_decode_control_request(v@),
{
    match v {
        JsonValue::Obj(members) => {
            let device = match str_field(members, "device") {
                Some(s) => s.clone(),
                None => {
                    return Err(DecodeError::MalformedEnvelope("device must be a string".to_owned()));
                },
            };
            let model = match str_field(members, "model") {
                Some(s) => s.clone(),
                None => {
                    return Err(DecodeError::MalformedEnvelope("model must be a string".to_owned()));
                },
            };
            let cmd = match obj_field(members, "cmd") {
                Some(cmd) => cmd,
                None => {
                    return Err(DecodeError::MalformedEnvelope("cmd must be an object".to_owned()));
                },
            };
            let name = match str_field(cmd, "name") {
                Some(s) => s.clone(),
                None => {
                    return Err(
                        DecodeError::MalformedEnvelope("cmd name must be a string".to_owned()),
                    );
                },
            };
            let value = match str_field(cmd, "value") {
                Some(s) => s.clone(),
                None => {
                    return Err(
                        DecodeError::MalformedEnvelope("cmd value must be a string".to_owned()),
                    );
                },
            };
            Ok(PayloadBody { device, model, cmd: GoveeCommand { name, value } })
        },
        _ => Err(DecodeError::MalformedEnvelope("control request must be an object".to_owned())),
    }
}

/// What decoding device-state response bytes yields: a parse failure for
/// text that is not JSON, and the envelope decode otherwise.
pub open spec fn spec_decode_device_state_bytes(b: Seq<u8>) -> Result<
    ApiResponseGoveeDeviceStateView,
    DecodeErrorView,
> {
    match json_of(b) {
        None => Err(DecodeErrorView::MalformedEnvelope("body is not valid JSON"@)),
        Some(v) => spec_decode_state_envelope(v),
    }
}

/// Decodes the body of a device-state response.
pub fn decode_device_state(bytes: &[u8]) -> (r: Result<ApiResponseGoveeDeviceState, DecodeError>)
    ensures
        result_view(r) == spec_decode_device_state_bytes(bytes@),
{
    match parse_json(bytes) {
        None => Err(DecodeError::MalformedEnvelope("body is not valid JSON".to_owned())),
        Some(v) => decode_state_envelope(&v),
    }
}

/// What decoding device-listing response bytes yields: a parse failure for
/// text that is not JSON, and the envelope decode otherwise.
pub open spec fn spec_decode_device_listing_bytes(b: Seq<u8>) -> Result<
    ApiResponseGoveeDevicesView,
    DecodeErrorView,
> {
    match json_of(b) {
        None => Err(DecodeErrorView::MalformedEnvelope("body is not valid JSON"@)),
        Some(v) => spec_decode_listing_envelope(v),
    }
}

/// Decodes the body of a device-listing response.
pub fn decode_device_listing(bytes: &[u8]) -> (r: Result<ApiResponseGoveeDevices, DecodeError>)
    ensures
        result_view(r) == spec_decode_device_listing_bytes(bytes@),
{
    match parse_json(bytes) {
        None => Err(DecodeError::MalformedEnvelope("body is not valid JSON".to_owned())),
        Some(v) => decode_listing_envelope(&v),
    }
}

/// What decoding appliance-listing response bytes yields.
pub open spec fn spec_decode_appliance_listing_bytes(b: Seq<u8>) -> Result<
    ApiResponseGoveeAppliancesView,
    DecodeErrorView,
> {
    match json_of(b) {
        None => Err(DecodeErrorView::MalformedEnvelope("body is not valid JSON"@)),
        Some(v) => spec_decode_appliance_envelope(v),
    }
}

/// Decodes the body of an appliance-listing response.
pub fn decode_appliance_listing(bytes: &[u8]) -> (r: Result<
    ApiResponseGoveeAppliances,
    DecodeError,
>)
    ensures
        result_view(r) == spec_decode_appliance_listing_bytes(bytes@),
{
    match parse_json(bytes) {
        None => Err(DecodeError::MalformedEnvelope("body is not valid JSON".to_owned())),
        Some(v) => decode_appliance_envelope(&v),
    }
}

} // verus!
