//! Tests for condition construction: the typed builders, the
//! general-purpose builder, and the values read back from finished
//! conditions.

use wfp::{
    AppIdConditionBuilder, Condition, ConditionBuilder, ConditionField, ConditionValue, MatchType,
    OwnedByteBlob, PortConditionBuilder, ProtocolConditionBuilder,
};

#[test]
fn test_condition_port_remote() {
    let condition = PortConditionBuilder::remote().equal(80).build();

    let field_guid = condition.field().guid();
    let expected = ConditionField::RemotePort.guid();
    assert_eq!(field_guid.data1, expected.data1);
    assert_eq!(field_guid.data2, expected.data2);
    assert_eq!(field_guid.data3, expected.data3);
    assert_eq!(field_guid.data4, expected.data4);

    assert_eq!(condition.match_type().raw(), MatchType::Equal.raw());
    assert!(matches!(condition.value(), ConditionValue::UInt16(80)));
}

#[test]
fn remote_port_guid_is_the_well_known_one() {
    let g = ConditionField::RemotePort.guid();
    assert_eq!(g.data1, 0xc35a604d);
    assert_eq!(g.data2, 0xd22b);
    assert_eq!(g.data3, 0x4e1a);
    assert_eq!(g.data4, 0x91b4_68f6_74ee_674b);
}

#[test]
fn local_port_condition_uses_the_local_field() {
    let condition = PortConditionBuilder::local().equal(443).build();
    assert_eq!(condition.field(), ConditionField::LocalPort);
    assert_eq!(condition.match_type(), MatchType::Equal);
    assert!(matches!(condition.value(), ConditionValue::UInt16(443)));
}

#[test]
fn protocol_tcp_is_equal_six() {
    let condition = ProtocolConditionBuilder::tcp().build();
    assert_eq!(condition.field(), ConditionField::Protocol);
    assert_eq!(condition.match_type(), MatchType::Equal);
    assert!(matches!(condition.value(), ConditionValue::UInt8(6)));
}

#[test]
fn protocol_udp_and_icmp_aliases() {
    let udp = ProtocolConditionBuilder::udp().build();
    assert!(matches!(udp.value(), ConditionValue::UInt8(17)));
    let icmp = ProtocolConditionBuilder::icmp().build();
    assert!(matches!(icmp.value(), ConditionValue::UInt8(1)));
}

#[test]
fn protocol_generic_equal() {
    let gre = ProtocolConditionBuilder::default().equal(47).build();
    assert_eq!(gre.field(), ConditionField::Protocol);
    assert!(matches!(gre.value(), ConditionValue::UInt8(47)));
}

#[test]
fn condition_builder_rejects_every_incomplete_path() {
    assert!(ConditionBuilder::default().build().is_none());
    assert!(ConditionBuilder::default()
        .field(ConditionField::RemotePort)
        .build()
        .is_none());
    assert!(ConditionBuilder::default()
        .match_type(MatchType::Equal)
        .build()
        .is_none());
    assert!(ConditionBuilder::default().value_u16(80).build().is_none());
    assert!(ConditionBuilder::default()
        .field(ConditionField::RemotePort)
        .match_type(MatchType::Equal)
        .build()
        .is_none());
    assert!(ConditionBuilder::default()
        .field(ConditionField::RemotePort)
        .value_u16(80)
        .build()
        .is_none());
    assert!(ConditionBuilder::default()
        .match_type(MatchType::Equal)
        .value_u16(80)
        .build()
        .is_none());
}

#[test]
fn condition_builder_builds_when_complete() {
    let condition: Condition = ConditionBuilder::default()
        .field(ConditionField::RemotePort)
        .match_type(MatchType::Equal)
        .value_u16(80)
        .build()
        .expect("complete builder must build");
    assert_eq!(condition.field(), ConditionField::RemotePort);
    assert_eq!(condition.match_type(), MatchType::Equal);
    assert!(matches!(condition.value(), ConditionValue::UInt16(80)));
}

#[test]
fn condition_builder_typed_values() {
    let c32 = ConditionBuilder::default()
        .field(ConditionField::RemoteAddress)
        .match_type(MatchType::Range)
        .value_u32(0x0a00_0001)
        .build()
        .unwrap();
    assert!(matches!(c32.value(), ConditionValue::UInt32(0x0a00_0001)));

    let c8 = ConditionBuilder::default()
        .field(ConditionField::Protocol)
        .match_type(MatchType::Less)
        .value_u8(7)
        .build()
        .unwrap();
    assert!(matches!(c8.value(), ConditionValue::UInt8(7)));
}

#[test]
fn condition_builder_string_value_is_null_terminated_wide() {
    let c = ConditionBuilder::default()
        .field(ConditionField::AppId)
        .match_type(MatchType::Equal)
        .value_string("ab")
        .build()
        .unwrap();
    match c.value() {
        ConditionValue::WideString(units) => {
            assert_eq!(units, &vec![0x61u16, 0x62u16, 0u16]);
        }
        _ => panic!("expected a wide string value"),
    }
}

#[test]
fn app_id_condition_attaches_the_identity_blob() {
    let identity = vec![1u8, 2, 3, 4];
    let blob = OwnedByteBlob::from(identity.clone());
    let condition = AppIdConditionBuilder::new().equal(blob).build();
    assert_eq!(condition.field(), ConditionField::AppId);
    assert_eq!(condition.match_type(), MatchType::Equal);
    match condition.value() {
        ConditionValue::ByteBlob(b) => assert_eq!(b.as_bytes(), &identity),
        _ => panic!("expected a byte blob value"),
    }
}

#[test]
fn conditions_clone_exactly() {
    let tcp = ProtocolConditionBuilder::tcp().build();
    let copy = tcp.clone();
    assert_eq!(copy.field(), tcp.field());
    assert_eq!(copy.match_type(), tcp.match_type());
    assert!(matches!(copy.value(), ConditionValue::UInt8(6)));
}

#[test]
fn action_raw_values_match_the_native_enumeration() {
    assert_eq!(wfp::ActionType::Block.raw(), 0x1001);
    assert_eq!(wfp::ActionType::Permit.raw(), 0x1002);
}

#[test]
fn match_raw_values_match_the_native_enumeration() {
    assert_eq!(MatchType::Equal.raw(), 0);
    assert_eq!(MatchType::Greater.raw(), 1);
    assert_eq!(MatchType::Less.raw(), 2);
    assert_eq!(MatchType::GreaterOrEqual.raw(), 3);
    assert_eq!(MatchType::LessOrEqual.raw(), 4);
    assert_eq!(MatchType::Range.raw(), 5);
}

#[test]
fn connect_v4_layer_guid_is_the_well_known_one() {
    let g = wfp::Layer::ConnectV4.guid();
    assert_eq!(g.data1, 0xc38d57d1);
    assert_eq!(g.data2, 0x05a7);
    assert_eq!(g.data3, 0x4c33);
    assert_eq!(g.data4, 0x904f_7fbc_eee6_0e82);
}

#[test]
fn the_default_sublayer_is_the_universal_one() {
    let g = wfp::default_sublayer_guid();
    assert_eq!(g.data1, 0xeebecc03);
    assert_eq!(g.data2, 0xced4);
    assert_eq!(g.data3, 0x4380);
    assert_eq!(g.data4, 0x819a_2734_397b_2b74);
}
