use vstd::prelude::*;

use crate::decode::{
    recognized_property_key, spec_decode_cmds, spec_decode_control_request, spec_decode_device,
    spec_decode_listing_envelope, spec_decode_opt_code, spec_decode_property,
    spec_decode_state_envelope, spec_payload_field,
};
use crate::encode::{spec_encode_control_request, spec_encode_device};
use crate::govee::{
    ApiResponseGoveeDevicesView, ApiResponseGoveeDeviceStateView, DecodeErrorView,
    GoveeDevicePropertyView, GoveeDeviceView, PayloadBodyView,
};
use crate::json::{JVal, jlookup, lemma_jlookup_at};

verus! {

/// Law: encoding a control request and decoding the result gives back every
/// field unchanged.
pub proof fn lemma_control_request_round_trip(p: PayloadBodyView)
    ensures
        spec_decode_control_request(spec_encode_control_request(p)) == Ok::<
            PayloadBodyView,
            DecodeErrorView,
        >(p),
{
    reveal_strlit("device");
    reveal_strlit("model");
    reveal_strlit("cmd");
    reveal_strlit("name");
    reveal_strlit("value");
    assert("device"@.len() == 6);
    assert("model"@.len() == 5);
    assert("cmd"@.len() == 3);
    assert("name"@.len() == 4);
    assert("value"@.len() == 5);
    let v = spec_encode_control_request(p);
    let members = v->Obj_0;
    lemma_jlookup_at(members, "device"@, 0);
    lemma_jlookup_at(members, "model"@, 1);
    lemma_jlookup_at(members, "cmd"@, 2);
    let cmd = members[2].1->Obj_0;
    lemma_jlookup_at(cmd, "name"@, 0);
    lemma_jlookup_at(cmd, "value"@, 1);
}

/// A `supportCmds` array built from command names decodes back to exactly
/// those names.
pub proof fn lemma_cmds_round_trip(ss: Seq<Seq<char>>)
    ensures
        spec_decode_cmds(Seq::new(ss.len(), |i: int| JVal::Str(ss[i]))) == Ok::<
            Seq<Seq<char>>,
            DecodeErrorView,
        >(ss),
    decreases ss.len(),
{
    let items = Seq::new(ss.len(), |i: int| JVal::Str(ss[i]));
    if ss.len() == 0 {
        assert(ss =~= Seq::<Seq<char>>::empty());
    } else {
        lemma_cmds_round_trip(ss.drop_last());
        let front_items = Seq::new(ss.drop_last().len(), |i: int| JVal::Str(ss.drop_last()[i]));
        assert(items.drop_last() =~= front_items);
        assert(items.last() == JVal::Str(ss.last()));
        assert(spec_decode_cmds(items) == Ok::<Seq<Seq<char>>, DecodeErrorView>(
            ss.drop_last().push(ss.last()),
        ));
        assert(ss.drop_last().push(ss.last()) =~= ss);
    }
}

/// Law: encoding a device descriptor and decoding the result gives back
/// every field unchanged.
pub proof fn lemma_device_round_trip(d: GoveeDeviceView)
    ensures
        spec_decode_device(spec_encode_device(d)) == Ok::<GoveeDeviceView, DecodeErrorView>(d),
{
    reveal_strlit("device");
    reveal_strlit("model");
    reveal_strlit("deviceName");
    reveal_strlit("controllable");
    reveal_strlit("retrievable");
    reveal_strlit("supportCmds");
    reveal_strlit("properties");
    reveal_strlit("colorTem");
    reveal_strlit("range");
    reveal_strlit("min");
    reveal_strlit("max");
    assert("device"@.len() == 6);
    assert("model"@.len() == 5);
    assert("deviceName"@.len() == 10);
    assert("controllable"@.len() == 12);
    assert("retrievable"@.len() == 11);
    assert("supportCmds"@.len() == 11);
    assert("properties"@.len() == 10);
    assert("retrievable"@[0] == 'r' && "supportCmds"@[0] == 's');
    assert("deviceName"@[0] == 'd' && "properties"@[0] == 'p');
    assert("colorTem"@.len() == 8);
    assert("range"@.len() == 5);
    assert("min"@.len() == 3 && "max"@.len() == 3);
    assert("min"@[1] == 'i' && "max"@[1] == 'a');
    let v = spec_encode_device(d);
    let members = v->Obj_0;
    lemma_jlookup_at(members, "device"@, 0);
    lemma_jlookup_at(members, "model"@, 1);
    lemma_jlookup_at(members, "deviceName"@, 2);
    lemma_jlookup_at(members, "controllable"@, 3);
    lemma_jlookup_at(members, "retrievable"@, 4);
    lemma_jlookup_at(members, "supportCmds"@, 5);
    lemma_jlookup_at(members, "properties"@, 6);
    lemma_cmds_round_trip(d.supportCmds);
    let caps = members[6].1->Obj_0;
    lemma_jlookup_at(caps, "colorTem"@, 0);
    let ct = caps[0].1->Obj_0;
    lemma_jlookup_at(ct, "range"@, 0);
    let rg = ct[0].1->Obj_0;
    lemma_jlookup_at(rg, "min"@, 0);
    lemma_jlookup_at(rg, "max"@, 1);
}

/// Law: a device-state envelope whose `data` member is absent decodes
/// successfully to a payload-absent result, never to a failure.
pub proof fn lemma_state_payload_absent(
    members: Seq<(Seq<char>, JVal)>,
    code: i16,
    message: Seq<char>,
)
    requires
        jlookup(members, "code"@) == Some(JVal::Int(code as int)),
        jlookup(members, "message"@) == Some(JVal::Str(message)),
        spec_payload_field(members, "data"@) is None,
    ensures
        spec_decode_state_envelope(JVal::Obj(members)) == Ok::<
            ApiResponseGoveeDeviceStateView,
            DecodeErrorView,
        >(ApiResponseGoveeDeviceStateView { code, message, data: None }),
{
}

/// Law: a listing envelope whose `data` member is absent decodes
/// successfully to a payload-absent result, never to a failure.
pub proof fn lemma_listing_payload_absent(members: Seq<(Seq<char>, JVal)>, message: Seq<char>)
    requires
        spec_decode_opt_code(members) is Ok,
        jlookup(members, "message"@) == Some(JVal::Str(message)),
        spec_payload_field(members, "data"@) is None,
    ensures
        spec_decode_listing_envelope(JVal::Obj(members)) == Ok::<
            ApiResponseGoveeDevicesView,
            DecodeErrorView,
        >(
            ApiResponseGoveeDevicesView {
                code: spec_decode_opt_code(members)->Ok_0,
                message,
                data: None,
            },
        ),
{
}

/// Law: the set of recognized property keys is closed. A property entry
/// under any other key fails decoding with `UnrecognizedProperty` naming
/// that key; it is never silently dropped.
pub proof fn lemma_unknown_property_key_fails(key: Seq<char>, value: JVal)
    requires
        !recognized_property_key(key),
    ensures
        spec_decode_property(JVal::Obj(seq![(key, value)])) == Err::<
            GoveeDevicePropertyView,
            DecodeErrorView,
        >(DecodeErrorView::UnrecognizedProperty(key)),
{
}

} // verus!
