//! The network layers a filter can operate at.

use vstd::prelude::*;

use crate::guid::Guid;

verus! {

/// Specifies the network layer at which a filter operates.
///
/// Different layers provide different types of network information and
/// allow filtering at various points in the network stack. Each variant
/// stands for one predefined native layer identifier.
#[derive(Clone, Copy, Debug, PartialEq, Eq, Structural)]
pub enum Layer {
    /// Authorizes accept requests for incoming TCP IPv4 connections, as
    /// well as incoming non-TCP traffic based on the first packet received.
    AcceptV4,
    /// Authorizes accept requests for incoming TCP IPv6 connections, as
    /// well as incoming non-TCP traffic based on the first packet received.
    AcceptV6,
    /// Authorizes connect requests for outgoing TCP IPv4 connections, as
    /// well as outgoing non-TCP traffic based on the first packet sent.
    ConnectV4,
    /// Authorizes connect requests for outgoing TCP IPv6 connections, as
    /// well as outgoing non-TCP traffic based on the first packet sent.
    ConnectV6,
    /// Inspects an IPv4 connection that has been authorized.
    FlowEstablishedV4,
    /// Inspects an IPv6 connection that has been authorized.
    FlowEstablishedV6,
    /// Incoming IPv4 packets before any IP header processing has occurred.
    InboundIpPacketV4,
    /// Incoming IPv6 packets before any IP header processing has occurred.
    InboundIpPacketV6,
    /// Outbound IPv4 packets just before fragmentation.
    OutboundIpPacketV4,
    /// Outbound IPv6 packets just before fragmentation.
    OutboundIpPacketV6,
    /// Incoming IPv4 packets before transport layer processing.
    InboundTransportV4,
    /// Incoming IPv6 packets before transport layer processing.
    InboundTransportV6,
    /// Outbound IPv4 packets before any network layer processing.
    OutboundTransportV4,
    /// Outbound IPv6 packets before any network layer processing.
    OutboundTransportV6,
}

impl Layer {
    /// The well-known native identifier of this layer.
    pub open spec fn spec_guid(self) -> Guid {
        match self {
            Layer::AcceptV4 => (Guid { data1: 0xe1cd9fe7, data2: 0xf4b5, data3: 0x4273, data4: 0x96c0592e487b8650 }),
            Layer::AcceptV6 => (Guid { data1: 0xa3b42c97, data2: 0x9f04, data3: 0x4672, data4: 0xb87ecee9c483257f }),
            Layer::ConnectV4 => (Guid { data1: 0xc38d57d1, data2: 0x05a7, data3: 0x4c33, data4: 0x904f7fbceee60e82 }),
            Layer::ConnectV6 => (Guid { data1: 0x4a72393b, data2: 0x319f, data3: 0x44bc, data4: 0x84c3ba54dcb3b6b4 }),
            Layer::FlowEstablishedV4 => (Guid { data1: 0xaf80470a, data2: 0x5596, data3: 0x4c13, data4: 0x9992539e6fe57967 }),
            Layer::FlowEstablishedV6 => (Guid { data1: 0x7021d2b3, data2: 0xdfa4, data3: 0x406e, data4: 0xafeb6afaf7e70efd }),
            Layer::InboundIpPacketV4 => (Guid { data1: 0xc86fd1bf, data2: 0x21cd, data3: 0x497e, data4: 0xa0bb17425c885c58 }),
            Layer::InboundIpPacketV6 => (Guid { data1: 0xf52032cb, data2: 0x991c, data3: 0x46e7, data4: 0x971d2601459a91ca }),
            Layer::OutboundIpPacketV4 => (Guid { data1: 0x1e5c9fae, data2: 0x8a84, data3: 0x4135, data4: 0xa331950b54229ecd }),
            Layer::OutboundIpPacketV6 => (Guid { data1: 0xa3b3ab6b, data2: 0x3564, data3: 0x488c, data4: 0x9117f34e82142763 }),
            Layer::InboundTransportV4 => (Guid { data1: 0x5926dfc8, data2: 0xe3cf, data3: 0x4426, data4: 0xa283dc393f5d0f9d }),
            Layer::InboundTransportV6 => (Guid { data1: 0x634a869f, data2: 0xfc23, data3: 0x4b90, data4: 0xb0c1bf620a36ae6f }),
            Layer::OutboundTransportV4 => (Guid { data1: 0x09e61aea, data2: 0xd214, data3: 0x46e2, data4: 0x9b21b26b0b2f28c8 }),
            Layer::OutboundTransportV6 => (Guid { data1: 0xe1735bde, data2: 0x013f, data3: 0x4655, data4: 0xb351a49e15762df0 }),
        }
    }

    /// Returns the well-known native identifier of this layer.
    pub fn guid(&self) -> (g: Guid)
        ensures
            g == self.spec_guid(),
    {
        match self {
            Layer::AcceptV4 => (Guid { data1: 0xe1cd9fe7, data2: 0xf4b5, data3: 0x4273, data4: 0x96c0592e487b8650 }),
            Layer::AcceptV6 => (Guid { data1: 0xa3b42c97, data2: 0x9f04, data3: 0x4672, data4: 0xb87ecee9c483257f }),
            Layer::ConnectV4 => (Guid { data1: 0xc38d57d1, data2: 0x05a7, data3: 0x4c33, data4: 0x904f7fbceee60e82 }),
            Layer::ConnectV6 => (Guid { data1: 0x4a72393b, data2: 0x319f, data3: 0x44bc, data4: 0x84c3ba54dcb3b6b4 }),
            Layer::FlowEstablishedV4 => (Guid { data1: 0xaf80470a, data2: 0x5596, data3: 0x4c13, data4: 0x9992539e6fe57967 }),
            Layer::FlowEstablishedV6 => (Guid { data1: 0x7021d2b3, data2: 0xdfa4, data3: 0x406e, data4: 0xafeb6afaf7e70efd }),
            Layer::InboundIpPacketV4 => (Guid { data1: 0xc86fd1bf, data2: 0x21cd, data3: 0x497e, data4: 0xa0bb17425c885c58 }),
            Layer::InboundIpPacketV6 => (Guid { data1: 0xf52032cb, data2: 0x991c, data3: 0x46e7, data4: 0x971d2601459a91ca }),
            Layer::OutboundIpPacketV4 => (Guid { data1: 0x1e5c9fae, data2: 0x8a84, data3: 0x4135, data4: 0xa331950b54229ecd }),
            Layer::OutboundIpPacketV6 => (Guid { data1: 0xa3b3ab6b, data2: 0x3564, data3: 0x488c, data4: 0x9117f34e82142763 }),
            Layer::InboundTransportV4 => (Guid { data1: 0x5926dfc8, data2: 0xe3cf, data3: 0x4426, data4: 0xa283dc393f5d0f9d }),
            Layer::InboundTransportV6 => (Guid { data1: 0x634a869f, data2: 0xfc23, data3: 0x4b90, data4: 0xb0c1bf620a36ae6f }),
            Layer::OutboundTransportV4 => (Guid { data1: 0x09e61aea, data2: 0xd214, data3: 0x46e2, data4: 0x9b21b26b0b2f28c8 }),
            Layer::OutboundTransportV6 => (Guid { data1: 0xe1735bde, data2: 0x013f, data3: 0x4655, data4: 0xb351a49e15762df0 }),
        }
    }
}

} // verus!
