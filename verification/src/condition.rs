//! Filter condition creation and management.
//!
//! A condition is one finalized match clause: a field selector, a match
//! operator, and a typed value. The general-purpose [`ConditionBuilder`]
//! accepts any combination and refuses to finalize an incomplete one; the
//! specialized builders restrict the value type to what is meaningful for
//! their field and pre-fill the selector and operator, so that a complete
//! condition is the only thing they can produce.

use vstd::prelude::*;

use crate::blob::{BlobV, OwnedByteBlob};
use crate::guid::Guid;
use crate::util::{clone_units, string_to_null_terminated_utf16, utf16_of};

verus! {

/// Specifies how a condition value is matched against network traffic.
///
/// Each variant stands for one value of the native match-type enumeration;
/// [`MatchType::raw`] yields that value.
#[derive(Clone, Copy, Debug, PartialEq, Eq, Structural)]
pub enum MatchType {
    /// The condition value must exactly match the network data.
    Equal,
    /// The network data must be greater than the condition value.
    Greater,
    /// The network data must be less than the condition value.
    Less,
    /// The network data must be greater than or equal to the condition value.
    GreaterOrEqual,
    /// The network data must be less than or equal to the condition value.
    LessOrEqual,
    /// The network data must fall within a specified range.
    Range,
}

impl MatchType {
    /// The native match-type value this variant stands for.
    pub open spec fn spec_raw(self) -> i32 {
        match self {
            MatchType::Equal => 0,
            MatchType::Greater => 1,
            MatchType::Less => 2,
            MatchType::GreaterOrEqual => 3,
            MatchType::LessOrEqual => 4,
            MatchType::Range => 5,
        }
    }

    /// Returns the native match-type value this variant stands for.
    pub fn raw(self) -> (r: i32)
        ensures
            r == self.spec_raw(),
    {
        match self {
            MatchType::Equal => 0,
            MatchType::Greater => 1,
            MatchType::Less => 2,
            MatchType::GreaterOrEqual => 3,
            MatchType::LessOrEqual => 4,
            MatchType::Range => 5,
        }
    }
}

/// The field of the network packet or connection a condition inspects.
#[derive(Clone, Copy, Debug, PartialEq, Eq, Structural)]
pub enum ConditionField {
    /// Remote IP address of the connection.
    RemoteAddress,
    /// Local IP address of the connection.
    LocalAddress,
    /// Remote port number of the connection.
    RemotePort,
    /// Local port number of the connection.
    LocalPort,
    /// IP protocol (TCP, UDP, etc.).
    Protocol,
    /// Application ID: the lower-case fully qualified device path of the
    /// application.
    AppId,
}

impl ConditionField {
    /// The well-known native identifier of this condition field.
    pub open spec fn spec_guid(self) -> Guid {
        match self {
            ConditionField::RemoteAddress => (Guid { data1: 0xb235ae9a, data2: 0x1d64, data3: 0x49b8, data4: 0xa44c5ff3d9095045 }),
            ConditionField::LocalAddress => (Guid { data1: 0xd9ee00de, data2: 0xc1ef, data3: 0x4617, data4: 0xbfe3ffd8f5a08957 }),
            ConditionField::RemotePort => (Guid { data1: 0xc35a604d, data2: 0xd22b, data3: 0x4e1a, data4: 0x91b468f674ee674b }),
            ConditionField::LocalPort => (Guid { data1: 0x0c1ba1af, data2: 0x5765, data3: 0x453f, data4: 0xaf22a8f791ac775b }),
            ConditionField::Protocol => (Guid { data1: 0x3971ef2b, data2: 0x623e, data3: 0x4f9a, data4: 0x8cb16e79b806b9a7 }),
            ConditionField::AppId => (Guid { data1: 0xd78e1e87, data2: 0x8644, data3: 0x4ea5, data4: 0x9437d809ecefc971 }),
        }
    }

    /// Returns the well-known native identifier of this condition field.
    pub fn guid(&self) -> (g: Guid)
        ensures
            g == self.spec_guid(),
    {
        match self {
            ConditionField::RemoteAddress => (Guid { data1: 0xb235ae9a, data2: 0x1d64, data3: 0x49b8, data4: 0xa44c5ff3d9095045 }),
            ConditionField::LocalAddress => (Guid { data1: 0xd9ee00de, data2: 0xc1ef, data3: 0x4617, data4: 0xbfe3ffd8f5a08957 }),
            ConditionField::RemotePort => (Guid { data1: 0xc35a604d, data2: 0xd22b, data3: 0x4e1a, data4: 0x91b468f674ee674b }),
            ConditionField::LocalPort => (Guid { data1: 0x0c1ba1af, data2: 0x5765, data3: 0x453f, data4: 0xaf22a8f791ac775b }),
            ConditionField::Protocol => (Guid { data1: 0x3971ef2b, data2: 0x623e, data3: 0x4f9a, data4: 0x8cb16e79b806b9a7 }),
            ConditionField::AppId => (Guid { data1: 0xd78e1e87, data2: 0x8644, data3: 0x4ea5, data4: 0x9437d809ecefc971 }),
        }
    }
}

/// One typed match value, together with the buffer that backs it where the
/// native representation points into memory.
pub enum ConditionValue {
    /// A 32-bit unsigned integer value.
    UInt32(u32),
    /// A 16-bit unsigned integer value.
    UInt16(u16),
    /// An 8-bit unsigned integer value.
    UInt8(u8),
    /// A null-terminated wide string value.
    WideString(Vec<u16>),
    /// A byte blob value, typically an application identity.
    ByteBlob(OwnedByteBlob),
}

/// What a [`ConditionValue`] holds.
#[verifier::ext_equal]
pub ghost enum ValueV {
    /// A 32-bit unsigned integer value.
    UInt32(u32),
    /// A 16-bit unsigned integer value.
    UInt16(u16),
    /// An 8-bit unsigned integer value.
    UInt8(u8),
    /// A null-terminated wide string value.
    WideString(Seq<u16>),
    /// A byte blob value.
    ByteBlob(BlobV),
}

impl View for ConditionValue {
    type V = ValueV;

    open spec fn view(&self) -> ValueV {
        match self {
            ConditionValue::UInt32(v) => ValueV::UInt32(*v),
            ConditionValue::UInt16(v) => ValueV::UInt16(*v),
            ConditionValue::UInt8(v) => ValueV::UInt8(*v),
            ConditionValue::WideString(units) => ValueV::WideString(units@),
            ConditionValue::ByteBlob(blob) => ValueV::ByteBlob(blob@),
        }
    }
}

impl Clone for ConditionValue {
    /// A value equal to this one.
    fn clone(&self) -> (r: Self)
        ensures
            r@ == self@,
    {
        match self {
            ConditionValue::UInt32(v) => ConditionValue::UInt32(*v),
            ConditionValue::UInt16(v) => ConditionValue::UInt16(*v),
            ConditionValue::UInt8(v) => ConditionValue::UInt8(*v),
            ConditionValue::WideString(units) => ConditionValue::WideString(clone_units(units)),
            ConditionValue::ByteBlob(blob) => ConditionValue::ByteBlob(blob.clone()),
        }
    }
}

/// One finalized match clause, ready to be attached to a filter.
pub struct Condition {
    /// The field the condition inspects.
    pub field: ConditionField,
    /// How the value is matched against the field.
    pub match_type: MatchType,
    /// The value matched against, together with its backing buffer.
    pub value: ConditionValue,
}

/// What a [`Condition`] holds.
#[verifier::ext_equal]
pub ghost struct ConditionV {
    /// The field the condition inspects.
    pub field: ConditionField,
    /// How the value is matched against the field.
    pub match_type: MatchType,
    /// The value matched against.
    pub value: ValueV,
}

impl View for Condition {
    type V = ConditionV;

    open spec fn view(&self) -> ConditionV {
        ConditionV { field: self.field, match_type: self.match_type, value: self.value@ }
    }
}

impl Clone for Condition {
    /// An equal condition.
    fn clone(&self) -> (r: Self)
        ensures
            r@ == self@,
    {
        Condition {
            field: self.field,
            match_type: self.match_type,
            value: self.value.clone(),
        }
    }
}

impl Condition {
    /// The field the condition inspects.
    pub fn field(&self) -> (r: ConditionField)
        ensures
            r == self.field,
    {
        self.field
    }

    /// How the value is matched against the field.
    pub fn match_type(&self) -> (r: MatchType)
        ensures
            r == self.match_type,
    {
        self.match_type
    }

    /// The value matched against, read back exactly as it was stored.
    pub fn value(&self) -> (r: &ConditionValue)
        ensures
            r == &self.value,
    {
        &self.value
    }
}

/// General-purpose builder for filter conditions.
///
/// All three parts — field, match type and value — are mandatory;
/// [`ConditionBuilder::build`] yields a condition exactly when all three
/// were set. The specialized builders ([`PortConditionBuilder`],
/// [`ProtocolConditionBuilder`], [`AppIdConditionBuilder`]) narrow this API
/// so an incomplete condition cannot even be expressed.
pub struct ConditionBuilder {
    /// The field selector, once set.
    pub field: Option<ConditionField>,
    /// The match operator, once set.
    pub match_type: Option<MatchType>,
    /// The typed value, once set.
    pub value: Option<ConditionValue>,
}

impl Default for ConditionBuilder {
    /// A builder with no parts set.
    fn default() -> (r: Self)
        ensures
            r.field is None,
            r.match_type is None,
            r.value is None,
    {
        ConditionBuilder { field: None, match_type: None, value: None }
    }
}

impl ConditionBuilder {
    /// Sets the field this condition matches against.
    pub fn field(self, field: ConditionField) -> (r: Self)
        ensures
            r.field == Some(field),
            r.match_type == self.match_type,
            r.value == self.value,
    {
        ConditionBuilder { field: Some(field), ..self }
    }

    /// Sets how the condition value is matched.
    pub fn match_type(self, match_type: MatchType) -> (r: Self)
        ensures
            r.field == self.field,
            r.match_type == Some(match_type),
            r.value == self.value,
    {
        ConditionBuilder { match_type: Some(match_type), ..self }
    }

    /// Sets a 32-bit unsigned integer value for the condition.
    pub fn value_u32(self, value: u32) -> (r: Self)
        ensures
            r.field == self.field,
            r.match_type == self.match_type,
            r.value == Some(ConditionValue::UInt32(value)),
    {
        ConditionBuilder { value: Some(ConditionValue::UInt32(value)), ..self }
    }

    /// Sets a 16-bit unsigned integer value for the condition.
    pub fn value_u16(self, value: u16) -> (r: Self)
        ensures
            r.field == self.field,
            r.match_type == self.match_type,
            r.value == Some(ConditionValue::UInt16(value)),
    {
        ConditionBuilder { value: Some(ConditionValue::UInt16(value)), ..self }
    }

    /// Sets an 8-bit unsigned integer value for the condition.
    pub fn value_u8(self, value: u8) -> (r: Self)
        ensures
            r.field == self.field,
            r.match_type == self.match_type,
            r.value == Some(ConditionValue::UInt8(value)),
    {
        ConditionBuilder { value: Some(ConditionValue::UInt8(value)), ..self }
    }

    /// Sets a string value for the condition, stored as a null-terminated
    /// wide string.
    pub fn value_string(self, value: &str) -> (r: Self)
        ensures
            r.field == self.field,
            r.match_type == self.match_type,
            r.value is Some,
            r.value.unwrap()@ == ValueV::WideString(utf16_of(value@).push(0u16)),
    {
        let units = string_to_null_terminated_utf16(value);
        ConditionBuilder { value: Some(ConditionValue::WideString(units)), ..self }
    }

    /// Sets a byte blob value for the condition, typically an application
    /// identity to be matched exactly.
    pub fn value_byte_blob(self, blob: OwnedByteBlob) -> (r: Self)
        ensures
            r.field == self.field,
            r.match_type == self.match_type,
            r.value == Some(ConditionValue::ByteBlob(blob)),
    {
        ConditionBuilder { value: Some(ConditionValue::ByteBlob(blob)), ..self }
    }

    /// Finalizes the condition: yields it exactly when field, match type
    /// and value have all been set, and nothing otherwise.
    pub fn build(self) -> (r: Option<Condition>)
        ensures
            r is Some <==> (self.field is Some && self.match_type is Some && self.value is Some),
            r is Some ==> r.unwrap() == (Condition {
                field: self.field.unwrap(),
                match_type: self.match_type.unwrap(),
                value: self.value.unwrap(),
            }),
    {
        match (self.field, self.match_type, self.value) {
            (Some(field), Some(match_type), Some(value)) => Some(
                Condition { field, match_type, value },
            ),
            _ => None,
        }
    }
}

/// Typed builder for port-based conditions.
///
/// Only 16-bit port numbers can be supplied, and the builder can only be
/// finalized once a port has been set: [`PortConditionBuilder::build`] is a
/// method of the has-value stage alone.
pub struct PortConditionBuilder<Value> {
    /// The port field this condition matches: remote or local.
    pub field: ConditionField,
    /// The staged value: nothing yet, or operator and port.
    pub state: Value,
}

/// Stage of a [`PortConditionBuilder`] before a port value has been set.
pub struct PortConditionBuilderMissingValue;

/// Stage of a [`PortConditionBuilder`] holding operator and port.
pub struct PortConditionBuilderHasValue {
    /// How the port is matched.
    pub match_type: MatchType,
    /// The port matched against.
    pub port: u16,
}

impl PortConditionBuilder<PortConditionBuilderMissingValue> {
    /// Creates a remote port condition.
    pub fn remote() -> (r: Self)
        ensures
            r.field == ConditionField::RemotePort,
    {
        PortConditionBuilder {
            field: ConditionField::RemotePort,
            state: PortConditionBuilderMissingValue,
        }
    }

    /// Creates a local port condition.
    pub fn local() -> (r: Self)
        ensures
            r.field == ConditionField::LocalPort,
    {
        PortConditionBuilder {
            field: ConditionField::LocalPort,
            state: PortConditionBuilderMissingValue,
        }
    }
}

impl<Value> PortConditionBuilder<Value> {
    /// Makes the condition match the exact port number.
    pub fn equal(self, port: u16) -> (r: PortConditionBuilder<PortConditionBuilderHasValue>)
        ensures
            r.field == self.field,
            r.state.match_type == MatchType::Equal,
            r.state.port == port,
    {
        PortConditionBuilder {
            field: self.field,
            state: PortConditionBuilderHasValue { match_type: MatchType::Equal, port },
        }
    }
}

impl PortConditionBuilder<PortConditionBuilderHasValue> {
    /// Builds the condition. Only the stage that holds a port value has
    /// this method.
    pub fn build(self) -> (c: Condition)
        ensures
            c@ == (ConditionV {
                field: self.field,
                match_type: self.state.match_type,
                value: ValueV::UInt16(self.state.port),
            }),
    {
        Condition {
            field: self.field,
            match_type: self.state.match_type,
            value: ConditionValue::UInt16(self.state.port),
        }
    }
}

/// Typed builder for protocol-based conditions.
///
/// The protocol conveniences are fixed numeric aliases: TCP is 6, UDP is
/// 17, ICMP is 1. The match operator is always equality.
pub struct ProtocolConditionBuilder {
    /// The protocol number matched against, once set.
    pub protocol: Option<u8>,
}

impl ProtocolConditionBuilder {
    /// Creates a condition that matches TCP traffic (protocol 6).
    pub fn tcp() -> (r: Self)
        ensures
            r.protocol == Some(6u8),
    {
        Self::new().equal(6)
    }

    /// Creates a condition that matches UDP traffic (protocol 17).
    pub fn udp() -> (r: Self)
        ensures
            r.protocol == Some(17u8),
    {
        Self::new().equal(17)
    }

    /// Creates a condition that matches ICMP traffic (protocol 1).
    pub fn icmp() -> (r: Self)
        ensures
            r.protocol == Some(1u8),
    {
        Self::new().equal(1)
    }

    /// Creates a protocol condition builder with no protocol set.
    fn new() -> (r: Self)
        ensures
            r.protocol is None,
    {
        ProtocolConditionBuilder { protocol: None }
    }

    /// Makes the condition match the exact protocol number.
    pub fn equal(self, protocol: u8) -> (r: Self)
        ensures
            r.protocol == Some(protocol),
    {
        ProtocolConditionBuilder { protocol: Some(protocol) }
    }

    /// Builds the condition. A protocol number must have been set; the
    /// builder fresh from [`ProtocolConditionBuilder::default`] has none.
    pub fn build(self) -> (c: Condition)
        requires
            self.protocol is Some,
        ensures
            c@ == (ConditionV {
                field: ConditionField::Protocol,
                match_type: MatchType::Equal,
                value: ValueV::UInt8(self.protocol.unwrap()),
            }),
    {
        let protocol = self.protocol.unwrap();
        Condition {
            field: ConditionField::Protocol,
            match_type: MatchType::Equal,
            value: ConditionValue::UInt8(protocol),
        }
    }
}

impl Default for ProtocolConditionBuilder {
    /// A builder with no protocol set.
    fn default() -> (r: Self)
        ensures
            r.protocol is None,
    {
        Self::new()
    }
}

/// Typed builder for application-identity conditions.
///
/// The identity bytes come from the native lookup-by-path call, which the
/// caller performs; the builder attaches the resulting blob and can only be
/// finalized once one has been attached.
pub struct AppIdConditionBuilder<Value> {
    /// The field this condition matches: always the application identity.
    pub field: ConditionField,
    /// The staged value: nothing yet, or operator and identity blob.
    pub state: Value,
}

/// Stage of an [`AppIdConditionBuilder`] before an identity has been set.
pub struct AppIdConditionBuilderMissingValue;

/// Stage of an [`AppIdConditionBuilder`] holding operator and identity.
pub struct AppIdConditionBuilderHasValue {
    /// How the identity is matched.
    pub match_type: MatchType,
    /// The application identity blob.
    pub blob: OwnedByteBlob,
}

impl AppIdConditionBuilder<AppIdConditionBuilderMissingValue> {
    /// Creates a new application-identity condition builder.
    pub fn new() -> (r: Self)
        ensures
            r.field == ConditionField::AppId,
    {
        AppIdConditionBuilder {
            field: ConditionField::AppId,
            state: AppIdConditionBuilderMissingValue,
        }
    }
}

impl<Value> AppIdConditionBuilder<Value> {
    /// Makes the condition match the exact application identity, as
    /// returned by the native lookup for the application's path.
    pub fn equal(self, app_id: OwnedByteBlob) -> (r: AppIdConditionBuilder<
        AppIdConditionBuilderHasValue,
    >)
        ensures
            r.field == self.field,
            r.state.match_type == MatchType::Equal,
            r.state.blob == app_id,
    {
        AppIdConditionBuilder {
            field: self.field,
            state: AppIdConditionBuilderHasValue { match_type: MatchType::Equal, blob: app_id },
        }
    }
}

impl AppIdConditionBuilder<AppIdConditionBuilderHasValue> {
    /// Builds the condition. Only the stage that holds an identity blob has
    /// this method.
    pub fn build(self) -> (c: Condition)
        ensures
            c@ == (ConditionV {
                field: self.field,
                match_type: self.state.match_type,
                value: ValueV::ByteBlob(self.state.blob@),
            }),
    {
        Condition {
            field: self.field,
            match_type: self.state.match_type,
            value: ConditionValue::ByteBlob(self.state.blob),
        }
    }
}

impl Default for AppIdConditionBuilder<AppIdConditionBuilderMissingValue> {
    /// A builder with no identity set.
    fn default() -> (r: Self)
        ensures
            r.field == ConditionField::AppId,
    {
        Self::new()
    }
}

} // verus!
