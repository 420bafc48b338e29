use vstd::prelude::*;

use crate::govee::{GoveeCommandView, GoveeDevice, GoveeDeviceView, PayloadBody, PayloadBodyView};
use crate::json::{
    JVal, JsonValue, json_bytes_of, jval_serializable, jmembers_of, jvals_of,
    lemma_jmembers_of_index, lemma_jvals_of_index, write_json,
};

verus! {

/// The wire shape of a command: `{name, value}`.
pub open spec fn spec_encode_command(c: GoveeCommandView) -> JVal {
    JVal::Obj(seq![("name"@, JVal::Str(c.name)), ("value"@, JVal::Str(c.value))])
}

/// The wire shape of a control request: `{device, model, cmd: {name, value}}`.
/// No validation against the target device's `supportCmds` happens here:
/// whether the command is legal for the device is the caller's concern.
pub open spec fn spec_encode_control_request(p: PayloadBodyView) -> JVal {
    JVal::Obj(
        seq![
            ("device"@, JVal::Str(p.device)),
            ("model"@, JVal::Str(p.model)),
            ("cmd"@, spec_encode_command(p.cmd)),
        ],
    )
}

/// Builds the JSON value of a control request.
pub fn encode_control_request_value(p: &PayloadBody) -> (r: JsonValue)
    ensures
        r@ == spec_encode_control_request(p@),
{
    let mut cmd_members: Vec<(String, JsonValue)> = Vec::new();
    cmd_members.push(("name".to_owned(), JsonValue::Str(p.cmd.name.clone())));
    cmd_members.push(("value".to_owned(), JsonValue::Str(p.cmd.value.clone())));
    let mut members: Vec<(String, JsonValue)> = Vec::new();
    members.push(("device".to_owned(), JsonValue::Str(p.device.clone())));
    members.push(("model".to_owned(), JsonValue::Str(p.model.clone())));
    members.push(("cmd".to_owned(), JsonValue::Obj(cmd_members)));
    let r = JsonValue::Obj(members);
    proof {
        lemma_jmembers_of_index(members@);
        lemma_jmembers_of_index(members@[2].1->Obj_0@);
        assert(jmembers_of(members@[2].1->Obj_0@) =~= seq![
            ("name"@, JVal::Str(p.cmd.name@)),
            ("value"@, JVal::Str(p.cmd.value@)),
        ]);
        assert(jmembers_of(members@) =~= seq![
            ("device"@, JVal::Str(p.device@)),
            ("model"@, JVal::Str(p.model@)),
            ("cmd"@, spec_encode_command(p.cmd@)),
        ]);
    }
    r
}

/// Every value a control request encodes to is free of the
/// unrepresentable-number marker.
pub proof fn lemma_control_request_serializable(p: PayloadBodyView)
    ensures
        jval_serializable(spec_encode_control_request(p)),
{
    let cmd = spec_encode_command(p.cmd);
    let members = spec_encode_control_request(p)->Obj_0;
    assert forall|i: int| 0 <= i < members.len() implies jval_serializable(
        #[trigger] members[i].1,
    ) by {
        if i == 2 {
            let cmd_members = cmd->Obj_0;
            assert(forall|j: int|
                0 <= j < cmd_members.len() ==> jval_serializable(#[trigger] cmd_members[j].1));
        }
    }
}

/// Encodes a control request as JSON text: the byte form of
/// `{device, model, cmd: {name, value}}`.
pub fn encode_control_request(p: &PayloadBody) -> (r: Vec<u8>)
    ensures
        r@ == json_bytes_of(spec_encode_control_request(p@)),
{
    let v = encode_control_request_value(p);
    proof {
        lemma_control_request_serializable(p@);
    }
    write_json(&v)
}

/// The wire shape of a device descriptor, as a listing response carries it.
pub open spec fn spec_encode_device(d: GoveeDeviceView) -> JVal {
    JVal::Obj(
        seq![
            ("device"@, JVal::Str(d.device)),
            ("model"@, JVal::Str(d.model)),
            ("deviceName"@, JVal::Str(d.deviceName)),
            ("controllable"@, JVal::Bool(d.controllable)),
            ("retrievable"@, JVal::Bool(d.retrievable)),
            ("supportCmds"@, JVal::Arr(Seq::new(d.supportCmds.len(), |i: int| JVal::Str(d.supportCmds[i])))),
            (
                "properties"@,
                JVal::Obj(
                    seq![
                        (
                            "colorTem"@,
                            JVal::Obj(
                                seq![
                                    (
                                        "range"@,
                                        JVal::Obj(
                                            seq![
                                                ("min"@, JVal::Int(d.properties.colorTem.range.min as int)),
                                                ("max"@, JVal::Int(d.properties.colorTem.range.max as int)),
                                            ],
                                        ),
                                    ),
                                ],
                            ),
                        ),
                    ],
                ),
            ),
        ],
    )
}

/// Builds the JSON value of a device descriptor, the inverse of decoding
/// one from a listing response.
pub fn encode_device_value(d: &GoveeDevice) -> (r: JsonValue)
    ensures
        r@ == spec_encode_device(d@),
{
    let mut cmd_items: Vec<JsonValue> = Vec::new();
    let n = d.supportCmds.len();
    let mut i: usize = 0;
    while i < n
        invariant
            n == d.supportCmds@.len(),
            0 <= i <= n,
            cmd_items@.len() == i,
            forall|j: int| 0 <= j < i ==> cmd_items@[j] == JsonValue::Str(d.supportCmds@[j]),
        decreases n - i,
    {
        cmd_items.push(JsonValue::Str(d.supportCmds[i].clone()));
        i += 1;
    }
    proof {
        lemma_jvals_of_index(cmd_items@);
        assert(jvals_of(cmd_items@) =~= Seq::new(
            d@.supportCmds.len(),
            |j: int| JVal::Str(d@.supportCmds[j]),
        ));
    }

    let mut range_members: Vec<(String, JsonValue)> = Vec::new();
    range_members.push(("min".to_owned(), JsonValue::Int(d.properties.colorTem.range.min as i64)));
    range_members.push(("max".to_owned(), JsonValue::Int(d.properties.colorTem.range.max as i64)));
    let mut color_tem_members: Vec<(String, JsonValue)> = Vec::new();
    color_tem_members.push(("range".to_owned(), JsonValue::Obj(range_members)));
    let mut properties_members: Vec<(String, JsonValue)> = Vec::new();
    properties_members.push(("colorTem".to_owned(), JsonValue::Obj(color_tem_members)));

    let mut members: Vec<(String, JsonValue)> = Vec::new();
    members.push(("device".to_owned(), JsonValue::Str(d.device.clone())));
    members.push(("model".to_owned(), JsonValue::Str(d.model.clone())));
    members.push(("deviceName".to_owned(), JsonValue::Str(d.deviceName.clone())));
    members.push(("controllable".to_owned(), JsonValue::Bool(d.controllable)));
    members.push(("retrievable".to_owned(), JsonValue::Bool(d.retrievable)));
    members.push(("supportCmds".to_owned(), JsonValue::Arr(cmd_items)));
    members.push(("properties".to_owned(), JsonValue::Obj(properties_members)));
    let r = JsonValue::Obj(members);
    proof {
        lemma_jmembers_of_index(members@[6].1->Obj_0@);
        lemma_jmembers_of_index(members@[6].1->Obj_0@[0].1->Obj_0@);
        lemma_jmembers_of_index(members@[6].1->Obj_0@[0].1->Obj_0@[0].1->Obj_0@);
        assert(jmembers_of(members@[6].1->Obj_0@[0].1->Obj_0@[0].1->Obj_0@) =~= seq![
            ("min"@, JVal::Int(d@.properties.colorTem.range.min as int)),
            ("max"@, JVal::Int(d@.properties.colorTem.range.max as int)),
        ]);
        assert(jmembers_of(members@[6].1->Obj_0@[0].1->Obj_0@) =~= seq![
            (
                "range"@,
                JVal::Obj(
                    seq![
                        ("min"@, JVal::Int(d@.properties.colorTem.range.min as int)),
                        ("max"@, JVal::Int(d@.properties.colorTem.range.max as int)),
                    ],
                ),
            ),
        ]);
        lemma_jmembers_of_index(members@);
        let ghost m = jmembers_of(members@);
        let ghost se = spec_encode_device(d@)->Obj_0;
        assert(m[5] =~~= se[5]);
        assert(se[6].1 == JVal::Obj(
            seq![
                (
                    "colorTem"@,
                    JVal::Obj(
                        seq![
                            (
                                "range"@,
                                JVal::Obj(
                                    seq![
                                        ("min"@, JVal::Int(d@.properties.colorTem.range.min as int)),
                                        ("max"@, JVal::Int(d@.properties.colorTem.range.max as int)),
                                    ],
                                ),
                            ),
                        ],
                    ),
                ),
            ],
        ));
        assert(m[6].1 == JVal::Obj(jmembers_of(members@[6].1->Obj_0@)));
        assert(jmembers_of(members@[6].1->Obj_0@) =~~= se[6].1->Obj_0);
        assert(m[6] =~~= se[6]);
        assert(jmembers_of(members@) =~~= spec_encode_device(d@)->Obj_0);
    }
    r
}

} // verus!
