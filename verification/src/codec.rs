//! The wire format: an Ethernet II header and the ARP message it carries.
//!
//! Every multi-octet field is big-endian. An ARP message for IPv4 over
//! Ethernet is 28 octets; behind the 14-octet Ethernet header it makes a
//! 42-octet frame.

use crate::addr::{Ipv4Address, MacAddress};
use vstd::prelude::*;
use vstd::slice::slice_subrange;

verus! {

/// Length of the Ethernet II header: two hardware addresses and the ethertype.
pub const ETHERNET_HEADER_LEN: usize = 14;

/// Length of an ARP message for IPv4 over Ethernet.
pub const ARP_MESSAGE_LEN: usize = 28;

/// Length of an Ethernet frame that carries one ARP message.
pub const ARP_FRAME_LEN: usize = 42;

/// Ethertype of a frame whose payload is an ARP message.
pub const ETHERTYPE_ARP: u16 = 0x0806;

/// Ethertype of IPv4, which doubles as ARP's protocol type for IPv4.
pub const ETHERTYPE_IPV4: u16 = 0x0800;

/// ARP's hardware type for Ethernet.
pub const HARDWARE_TYPE_ETHERNET: u16 = 1;

/// Length of an Ethernet hardware address, as ARP states it.
pub const HARDWARE_ADDR_LEN: u8 = 6;

/// Length of an IPv4 address, as ARP states it.
pub const PROTOCOL_ADDR_LEN: u8 = 4;

/// Operation code of an ARP request.
pub const OPERATION_REQUEST: u16 = 1;

/// Operation code of an ARP reply.
pub const OPERATION_REPLY: u16 = 2;

/// The two octets of `x`, most significant first.
pub open spec fn be16_wire(x: u16) -> Seq<u8> {
    seq![(x / 256) as u8, (x % 256) as u8]
}

/// The 16-bit value whose most significant octet is `s[at]` and whose least
/// significant octet is `s[at + 1]`.
pub open spec fn be16_read(s: Seq<u8>, at: int) -> u16 {
    (s[at] * 256 + s[at + 1]) as u16
}

/// What an ARP message asks for or answers.
#[derive(Clone, Copy, Debug, PartialEq, Eq, Hash, Structural)]
pub enum ArpOperation {
    Request,
    Reply,
}

impl ArpOperation {
    /// The operation code on the wire.
    pub open spec fn spec_code(self) -> u16 {
        match self {
            ArpOperation::Request => OPERATION_REQUEST,
            ArpOperation::Reply => OPERATION_REPLY,
        }
    }

    #[verifier::when_used_as_spec(spec_code)]
    pub fn code(self) -> (c: u16)
        ensures
            c == self.spec_code(),
    {
        match self {
            ArpOperation::Request => OPERATION_REQUEST,
            ArpOperation::Reply => OPERATION_REPLY,
        }
    }

    /// The operation that `code` stands for, if it is one of the two.
    pub open spec fn spec_from_code(code: u16) -> Option<ArpOperation> {
        if code == OPERATION_REQUEST {
            Some(ArpOperation::Request)
        } else if code == OPERATION_REPLY {
            Some(ArpOperation::Reply)
        } else {
            None
        }
    }

    #[verifier::when_used_as_spec(spec_from_code)]
    pub fn from_code(code: u16) -> (op: Option<ArpOperation>)
        ensures
            op == Self::spec_from_code(code),
    {
        if code == OPERATION_REQUEST {
            Some(ArpOperation::Request)
        } else if code == OPERATION_REPLY {
            Some(ArpOperation::Reply)
        } else {
            None
        }
    }
}

/// One ARP message, field for field as it stands on the wire.
///
/// The fixed fields and the operation code are kept as the integers that were
/// read, so that a message from the wire is reported as it is, whatever it
/// claims. `is_standard` tells whether it is the IPv4-over-Ethernet form.
#[derive(Clone, Copy, Debug, PartialEq, Eq, Hash, Structural)]
pub struct ArpMessage {
    pub hardware_type: u16,
    pub protocol_type: u16,
    pub hardware_addr_len: u8,
    pub protocol_addr_len: u8,
    pub operation: u16,
    pub sender_mac: MacAddress,
    pub sender_ip: Ipv4Address,
    pub target_mac: MacAddress,
    pub target_ip: Ipv4Address,
}

impl ArpMessage {
    /// The IPv4-over-Ethernet message with the given operation and addresses.
    pub open spec fn standard(
        operation: ArpOperation,
        sender_ip: Ipv4Address,
        sender_mac: MacAddress,
        target_ip: Ipv4Address,
        target_mac: MacAddress,
    ) -> ArpMessage {
        ArpMessage {
            hardware_type: HARDWARE_TYPE_ETHERNET,
            protocol_type: ETHERTYPE_IPV4,
            hardware_addr_len: HARDWARE_ADDR_LEN,
            protocol_addr_len: PROTOCOL_ADDR_LEN,
            operation: operation.spec_code(),
            sender_mac,
            sender_ip,
            target_mac,
            target_ip,
        }
    }

    /// Whether the fixed fields are those of IPv4 over Ethernet and the
    /// operation is a request or a reply.
    pub open spec fn is_standard(self) -> bool {
        &&& self.hardware_type == HARDWARE_TYPE_ETHERNET
        &&& self.protocol_type == ETHERTYPE_IPV4
        &&& self.hardware_addr_len == HARDWARE_ADDR_LEN
        &&& self.protocol_addr_len == PROTOCOL_ADDR_LEN
        &&& (self.operation == OPERATION_REQUEST || self.operation == OPERATION_REPLY)
    }

    /// The 28 octets of the message.
    pub open spec fn wire(self) -> Seq<u8> {
        be16_wire(self.hardware_type) + be16_wire(self.protocol_type) + seq![
            self.hardware_addr_len,
            self.protocol_addr_len,
        ] + be16_wire(self.operation) + self.sender_mac.wire() + self.sender_ip.wire()
            + self.target_mac.wire() + self.target_ip.wire()
    }

    /// The message at the start of `payload`; none where `payload` is too
    /// short to hold one. Octets behind the message are not looked at, and no
    /// field is held against what it should be.
    pub open spec fn parse(payload: Seq<u8>) -> Option<ArpMessage> {
        if payload.len() < ARP_MESSAGE_LEN {
            None
        } else {
            Some(
                ArpMessage {
                    hardware_type: be16_read(payload, 0),
                    protocol_type: be16_read(payload, 2),
                    hardware_addr_len: payload[4],
                    protocol_addr_len: payload[5],
                    operation: be16_read(payload, 6),
                    sender_mac: MacAddress::read(payload, 8),
                    sender_ip: Ipv4Address::read(payload, 14),
                    target_mac: MacAddress::read(payload, 18),
                    target_ip: Ipv4Address::read(payload, 24),
                },
            )
        }
    }

    pub fn new(
        operation: ArpOperation,
        sender_ip: Ipv4Address,
        sender_mac: MacAddress,
        target_ip: Ipv4Address,
        target_mac: MacAddress,
    ) -> (msg: ArpMessage)
        ensures
            msg == Self::standard(operation, sender_ip, sender_mac, target_ip, target_mac),
            msg.is_standard(),
    {
        ArpMessage {
            hardware_type: HARDWARE_TYPE_ETHERNET,
            protocol_type: ETHERTYPE_IPV4,
            hardware_addr_len: HARDWARE_ADDR_LEN,
            protocol_addr_len: PROTOCOL_ADDR_LEN,
            operation: operation.code(),
            sender_mac,
            sender_ip,
            target_mac,
            target_ip,
        }
    }

    /// Whether the message is an answer, by its operation code alone.
    pub open spec fn spec_is_reply(&self) -> bool {
        self.operation == OPERATION_REPLY
    }

    #[verifier::when_used_as_spec(spec_is_reply)]
    pub fn is_reply(&self) -> (b: bool)
        ensures
            b == self.spec_is_reply(),
    {
        self.operation == OPERATION_REPLY
    }
}

/// The octets of an Ethernet II frame: destination, source, ethertype, payload.
pub open spec fn ethernet_wire(
    destination: MacAddress,
    source: MacAddress,
    ethertype: u16,
    payload: Seq<u8>,
) -> Seq<u8> {
    destination.wire() + source.wire() + be16_wire(ethertype) + payload
}

/// The octets of the Ethernet frame that carries the IPv4-over-Ethernet ARP
/// message with the given fields from `sender_mac` to `target_mac`.
pub open spec fn arp_frame_wire(
    operation: ArpOperation,
    sender_ip: Ipv4Address,
    sender_mac: MacAddress,
    target_ip: Ipv4Address,
    target_mac: MacAddress,
) -> Seq<u8> {
    ethernet_wire(
        target_mac,
        sender_mac,
        ETHERTYPE_ARP,
        ArpMessage::standard(operation, sender_ip, sender_mac, target_ip, target_mac).wire(),
    )
}

/// What an Ethernet frame holds, with the payload as a sequence of octets.
pub struct EthernetFrameView {
    pub destination: MacAddress,
    pub source: MacAddress,
    pub ethertype: u16,
    pub payload: Seq<u8>,
}

/// An Ethernet frame read in place: the header's fields, and the payload as
/// a borrow of the octets it was read from.
#[derive(Clone, Copy, Debug, PartialEq, Eq)]
pub struct EthernetFrame<'a> {
    pub destination: MacAddress,
    pub source: MacAddress,
    pub ethertype: u16,
    pub payload: &'a [u8],
}

impl<'a> View for EthernetFrame<'a> {
    type V = EthernetFrameView;

    open spec fn view(&self) -> EthernetFrameView {
        EthernetFrameView {
            destination: self.destination,
            source: self.source,
            ethertype: self.ethertype,
            payload: self.payload@,
        }
    }
}

impl<'a> EthernetFrame<'a> {
    /// Whether the ethertype announces an ARP message as the payload.
    pub open spec fn spec_carries_arp(&self) -> bool {
        self.ethertype == ETHERTYPE_ARP
    }

    #[verifier::when_used_as_spec(spec_carries_arp)]
    pub fn carries_arp(&self) -> (b: bool)
        ensures
            b == self.spec_carries_arp(),
    {
        self.ethertype == ETHERTYPE_ARP
    }
}

/// The frame at the start of `raw`: the header's fields and everything behind
/// the header as payload; none where `raw` is shorter than a header.
pub open spec fn parse_ethernet(raw: Seq<u8>) -> Option<EthernetFrameView> {
    if raw.len() < ETHERNET_HEADER_LEN {
        None
    } else {
        Some(
            EthernetFrameView {
                destination: MacAddress::read(raw, 0),
                source: MacAddress::read(raw, 6),
                ethertype: be16_read(raw, 12),
                payload: raw.subrange(ETHERNET_HEADER_LEN as int, raw.len() as int),
            },
        )
    }
}

fn be16_octets(x: u16) -> (o: (u8, u8))
    ensures
        seq![o.0, o.1] == be16_wire(x),
{
    let o = ((x / 256) as u8, (x % 256) as u8);
    assert(seq![o.0, o.1] =~= be16_wire(x));
    o
}

fn be16_at(s: &[u8], at: usize) -> (x: u16)
    requires
        at + 1 < s@.len(),
    ensures
        x == be16_read(s@, at as int),
{
    (s[at] as u16) * 256 + (s[at + 1] as u16)
}

fn mac_at(s: &[u8], at: usize) -> (m: MacAddress)
    requires
        at + 5 < s@.len(),
    ensures
        m == MacAddress::read(s@, at as int),
{
    MacAddress(s[at], s[at + 1], s[at + 2], s[at + 3], s[at + 4], s[at + 5])
}

fn ipv4_at(s: &[u8], at: usize) -> (a: Ipv4Address)
    requires
        at + 3 < s@.len(),
    ensures
        a == Ipv4Address::read(s@, at as int),
{
    Ipv4Address(s[at], s[at + 1], s[at + 2], s[at + 3])
}

/// Writes `msg` out as its 28 octets, whatever its fields hold.
pub fn encode_arp_message(msg: &ArpMessage) -> (out: [u8; 28])
    ensures
        out@ == msg.wire(),
        ArpMessage::parse(out@) == Some(*msg),
{
    let h = be16_octets(msg.hardware_type);
    let p = be16_octets(msg.protocol_type);
    let o = be16_octets(msg.operation);
    let sm = msg.sender_mac;
    let si = msg.sender_ip;
    let tm = msg.target_mac;
    let ti = msg.target_ip;
    let out: [u8; 28] = [
        h.0, h.1, p.0, p.1, msg.hardware_addr_len, msg.protocol_addr_len, o.0, o.1,
        sm.0, sm.1, sm.2, sm.3, sm.4, sm.5, si.0, si.1, si.2, si.3,
        tm.0, tm.1, tm.2, tm.3, tm.4, tm.5, ti.0, ti.1, ti.2, ti.3,
    ];
    proof {
        assert(out@ =~= msg.wire());
        lemma_arp_round_trip(*msg);
    }
    out
}

/// Builds the 42-octet Ethernet frame that carries one ARP message from
/// `sender_mac` to `target_mac`.
///
/// The Ethernet header names `target_mac` as destination and `sender_mac` as
/// source, with the ARP ethertype; the payload is the IPv4-over-Ethernet
/// message with the given operation and the four addresses. Reading the frame
/// back gives exactly those fields.
pub fn encode_arp_frame(
    operation: ArpOperation,
    sender_ip: Ipv4Address,
    sender_mac: MacAddress,
    target_ip: Ipv4Address,
    target_mac: MacAddress,
) -> (frame: [u8; 42])
    ensures
        frame@ == arp_frame_wire(operation, sender_ip, sender_mac, target_ip, target_mac),
        frame@.len() == ARP_FRAME_LEN,
        frame@.subrange(ETHERNET_HEADER_LEN as int, ARP_FRAME_LEN as int) == ArpMessage::standard(
            operation,
            sender_ip,
            sender_mac,
            target_ip,
            target_mac,
        ).wire(),
{
    let msg = ArpMessage::new(operation, sender_ip, sender_mac, target_ip, target_mac);
    let body = encode_arp_message(&msg);
    let ty = be16_octets(ETHERTYPE_ARP);
    let d = target_mac;
    let s = sender_mac;
    let frame: [u8; 42] = [
        d.0, d.1, d.2, d.3, d.4, d.5, s.0, s.1, s.2, s.3, s.4, s.5, ty.0, ty.1,
        body[0], body[1], body[2], body[3], body[4], body[5], body[6], body[7],
        body[8], body[9], body[10], body[11], body[12], body[13], body[14], body[15],
        body[16], body[17], body[18], body[19], body[20], body[21], body[22], body[23],
        body[24], body[25], body[26], body[27],
    ];
    proof {
        assert(frame@ =~= ethernet_wire(d, s, ETHERTYPE_ARP, body@));
        assert(frame@.subrange(ETHERNET_HEADER_LEN as int, ARP_FRAME_LEN as int) =~= body@);
    }
    frame
}

/// Reads the Ethernet header at the start of `raw` and lends out what follows
/// it as the payload.
///
/// Gives none exactly when `raw` is shorter than the 14-octet header. The
/// ethertype is reported as read; the payload may be empty.
pub fn decode_ethernet_frame<'a>(raw: &'a [u8]) -> (frame: Option<EthernetFrame<'a>>)
    ensures
        frame is None <==> raw@.len() < ETHERNET_HEADER_LEN,
        match frame {
            Some(f) => parse_ethernet(raw@) == Some(f@),
            None => parse_ethernet(raw@) is None,
        },
{
    if raw.len() < ETHERNET_HEADER_LEN {
        return None;
    }
    let destination = mac_at(raw, 0);
    let source = mac_at(raw, 6);
    let ethertype = be16_at(raw, 12);
    let payload = slice_subrange(raw, ETHERNET_HEADER_LEN, raw.len());
    Some(EthernetFrame { destination, source, ethertype, payload })
}

/// Reads the ARP message at the start of `payload`.
///
/// Gives none exactly when `payload` is shorter than the 28 octets of a
/// message. Every field is reported as read, the fixed ones too: a message
/// with an unexpected hardware type, protocol type, address length or
/// operation code is decoded like any other.
pub fn decode_arp_message(payload: &[u8]) -> (msg: Option<ArpMessage>)
    ensures
        msg == ArpMessage::parse(payload@),
        msg is None <==> payload@.len() < ARP_MESSAGE_LEN,
{
    if payload.len() < ARP_MESSAGE_LEN {
        return None;
    }
    Some(
        ArpMessage {
            hardware_type: be16_at(payload, 0),
            protocol_type: be16_at(payload, 2),
            hardware_addr_len: payload[4],
            protocol_addr_len: payload[5],
            operation: be16_at(payload, 6),
            sender_mac: mac_at(payload, 8),
            sender_ip: ipv4_at(payload, 14),
            target_mac: mac_at(payload, 18),
            target_ip: ipv4_at(payload, 24),
        },
    )
}

/// Reading back the octets of a message gives that message, for every value
/// of every field.
pub proof fn lemma_arp_round_trip(msg: ArpMessage)
    ensures
        msg.wire().len() == ARP_MESSAGE_LEN,
        ArpMessage::parse(msg.wire()) == Some(msg),
{
    let w = msg.wire();
    assert(w.len() == 28);
    assert(be16_read(w, 0) == msg.hardware_type);
    assert(be16_read(w, 2) == msg.protocol_type);
    assert(be16_read(w, 6) == msg.operation);
}

/// A decoded message stands for the 28 octets it was read from: writing it
/// out gives them back, so no two different prefixes decode alike.
pub proof fn lemma_arp_parse_then_wire(payload: Seq<u8>)
    requires
        payload.len() >= ARP_MESSAGE_LEN,
    ensures
        ArpMessage::parse(payload) is Some,
        ArpMessage::parse(payload)->0.wire() == payload.subrange(0, ARP_MESSAGE_LEN as int),
{
    let msg = ArpMessage::parse(payload)->0;
    assert(msg.wire() =~= payload.subrange(0, ARP_MESSAGE_LEN as int));
}

/// An encoded ARP frame is 42 octets, 28 of them the message, and decodes to
/// the fields it was built from: the Ethernet header from sender to target
/// with the ARP ethertype, and the IPv4-over-Ethernet message with the given
/// operation and addresses.
pub proof fn lemma_arp_frame_round_trip(
    operation: ArpOperation,
    sender_ip: Ipv4Address,
    sender_mac: MacAddress,
    target_ip: Ipv4Address,
    target_mac: MacAddress,
)
    ensures
        arp_frame_wire(operation, sender_ip, sender_mac, target_ip, target_mac).len()
            == ARP_FRAME_LEN,
        parse_ethernet(
            arp_frame_wire(operation, sender_ip, sender_mac, target_ip, target_mac),
        ) matches Some(frame) && {
            &&& frame.destination == target_mac
            &&& frame.source == sender_mac
            &&& frame.ethertype == ETHERTYPE_ARP
            &&& frame.payload.len() == ARP_MESSAGE_LEN
            &&& ArpMessage::parse(frame.payload) == Some(
                ArpMessage::standard(operation, sender_ip, sender_mac, target_ip, target_mac),
            )
        },
{
    let msg = ArpMessage::standard(operation, sender_ip, sender_mac, target_ip, target_mac);
    let raw = arp_frame_wire(operation, sender_ip, sender_mac, target_ip, target_mac);
    lemma_arp_round_trip(msg);
    assert(raw.len() == 42);
    assert(raw.subrange(ETHERNET_HEADER_LEN as int, raw.len() as int) =~= msg.wire());
    assert(be16_read(raw, 12) == ETHERTYPE_ARP);
}

} // verus!
