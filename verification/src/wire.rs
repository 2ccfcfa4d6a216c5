//! The boundary to `pnet`'s packet types and to `rand`.
//!
//! Every function here that is marked `external_body` reaches into an
//! outside crate and states what comes of it in plain bytes. None of these
//! statements is proved: they are read off the field lists of
//! `pnet::packet::tcp::Tcp`, `pnet::packet::ipv4::Ipv4` and
//! `pnet::packet::ethernet::Ethernet`, from which `pnet` derives the packet
//! types and their accessors. Each packet type is made by its `new` from a
//! buffer that holds at least the fixed part of the header, and `new` gives
//! nothing for a shorter one.

use crate::address::Ipv4Address;
use pnet::packet::ethernet::EthernetPacket;
use pnet::packet::ipv4::Ipv4Packet;
use pnet::packet::tcp::{MutableTcpPacket, TcpOption, TcpPacket};
use pnet::packet::Packet;
use rand::Rng;
use vstd::prelude::*;

verus! {

/// Length of a TCP header without options.
pub const TCP_HEADER_LEN: usize = 20;

/// Length of an IPv4 header without options.
pub const IPV4_HEADER_LEN: usize = 20;

/// Length of an Ethernet header.
pub const ETHERNET_HEADER_LEN: usize = 14;

/// Offset of the checksum field in a TCP header.
pub const TCP_CHECKSUM_AT: usize = 16;

/// Offset of the options area in a TCP header.
pub const TCP_OPTIONS_AT: usize = 20;

/// The longest segment whose checksum is taken: the largest value of an
/// IPv4 packet's 16-bit length field.
pub const MAX_SEGMENT_LEN: usize = 65535;

/// A 16-bit value as two bytes, most significant first.
pub open spec fn be16(value: u16) -> Seq<u8> {
    seq![(value / 256) as u8, (value % 256) as u8]
}

/// A 32-bit value as four bytes, most significant first.
pub open spec fn be32(value: u32) -> Seq<u8> {
    seq![
        (value / 0x100_0000) as u8,
        (value / 0x1_0000 % 256) as u8,
        (value / 0x100 % 256) as u8,
        (value % 256) as u8,
    ]
}

/// The 16-bit value whose two bytes, most significant first, stand at `at`.
pub open spec fn word_at(bytes: Seq<u8>, at: int) -> u16 {
    (bytes[at] as int * 256 + bytes[at + 1] as int) as u16
}

/// `bytes` with `field` written over it from offset `at` on.
pub open spec fn put_bytes(bytes: Seq<u8>, at: int, field: Seq<u8>) -> Seq<u8> {
    Seq::new(
        bytes.len(),
        |i: int|
            if at <= i < at + field.len() {
                field[i - at]
            } else {
                bytes[i]
            },
    )
}

/// A maximum-segment-size option as it stands in a TCP header: number 2,
/// length 4, then the value.
pub open spec fn mss_option(mss: u16) -> Seq<u8> {
    seq![2u8, 4u8] + be16(mss)
}

/// A segment with its checksum field taken as zero.
pub open spec fn with_zero_checksum(segment: Seq<u8>) -> Seq<u8> {
    put_bytes(segment, TCP_CHECKSUM_AT as int, seq![0u8, 0u8])
}

/// What `pnet::packet::tcp::ipv4_checksum` returns for a segment and the two
/// addresses of the IPv4 pseudo-header, each as its four octets. It is only
/// ever asked of a segment whose checksum field is zero.
pub uninterp spec fn tcp_ipv4_checksum(segment: Seq<u8>, source: Seq<u8>, destination: Seq<u8>) -> u16;

/// `MutableTcpPacket::set_source`: writes the source port, most significant
/// byte first, into bytes 0 and 1 and leaves the rest as it was.
#[verifier::external_body]
pub(crate) fn tcp_set_source(segment: &mut [u8], port: u16)
    requires
        old(segment)@.len() >= TCP_HEADER_LEN,
    ensures
        final(segment)@ == put_bytes(old(segment)@, 0, be16(port)),
{
    MutableTcpPacket::new(segment).unwrap().set_source(port);
}

/// `MutableTcpPacket::set_destination`: writes the destination port, most
/// significant byte first, into bytes 2 and 3.
#[verifier::external_body]
pub(crate) fn tcp_set_destination(segment: &mut [u8], port: u16)
    requires
        old(segment)@.len() >= TCP_HEADER_LEN,
    ensures
        final(segment)@ == put_bytes(old(segment)@, 2, be16(port)),
{
    MutableTcpPacket::new(segment).unwrap().set_destination(port);
}

/// `MutableTcpPacket::set_sequence`: writes the sequence number, most
/// significant byte first, into bytes 4 to 7.
#[verifier::external_body]
pub(crate) fn tcp_set_sequence(segment: &mut [u8], sequence: u32)
    requires
        old(segment)@.len() >= TCP_HEADER_LEN,
    ensures
        final(segment)@ == put_bytes(old(segment)@, 4, be32(sequence)),
{
    MutableTcpPacket::new(segment).unwrap().set_sequence(sequence);
}

/// `MutableTcpPacket::set_data_offset`: writes the header length in 32-bit
/// words into the upper four bits of byte 12 and keeps its lower four bits.
#[verifier::external_body]
pub(crate) fn tcp_set_data_offset(segment: &mut [u8], words: u8)
    requires
        old(segment)@.len() >= TCP_HEADER_LEN,
        words < 16,
    ensures
        final(segment)@ == old(segment)@.update(
            12,
            (old(segment)@[12] % 16 + words * 16) as u8,
        ),
{
    MutableTcpPacket::new(segment).unwrap().set_data_offset(words);
}

/// `MutableTcpPacket::set_flags`: writes the flag bits into byte 13.
#[verifier::external_body]
pub(crate) fn tcp_set_flags(segment: &mut [u8], flags: u8)
    requires
        old(segment)@.len() >= TCP_HEADER_LEN,
    ensures
        final(segment)@ == old(segment)@.update(13, flags),
{
    MutableTcpPacket::new(segment).unwrap().set_flags(flags);
}

/// `MutableTcpPacket::set_window`: writes the window size, most significant
/// byte first, into bytes 14 and 15.
#[verifier::external_body]
pub(crate) fn tcp_set_window(segment: &mut [u8], window: u16)
    requires
        old(segment)@.len() >= TCP_HEADER_LEN,
    ensures
        final(segment)@ == put_bytes(old(segment)@, 14, be16(window)),
{
    MutableTcpPacket::new(segment).unwrap().set_window(window);
}

/// `MutableTcpPacket::set_options` with the one option `TcpOption::mss`:
/// writes number 2, length 4 and the value, most significant byte first, into
/// bytes 20 to 23. The call panics unless the data offset that stands in the
/// header leaves room for the option and the buffer holds those bytes, so
/// both are asked for.
#[verifier::external_body]
pub(crate) fn tcp_set_mss_option(segment: &mut [u8], mss: u16)
    requires
        old(segment)@.len() >= TCP_OPTIONS_AT + 4,
        old(segment)@[12] / 16 >= 6,
    ensures
        final(segment)@ == put_bytes(old(segment)@, TCP_OPTIONS_AT as int, mss_option(mss)),
{
    MutableTcpPacket::new(segment).unwrap().set_options(&[TcpOption::mss(mss)]);
}

/// `MutableTcpPacket::set_checksum`: writes the checksum, most significant
/// byte first, into bytes 16 and 17.
#[verifier::external_body]
pub(crate) fn tcp_set_checksum(segment: &mut [u8], checksum: u16)
    requires
        old(segment)@.len() >= TCP_HEADER_LEN,
    ensures
        final(segment)@ == put_bytes(old(segment)@, TCP_CHECKSUM_AT as int, be16(checksum)),
{
    MutableTcpPacket::new(segment).unwrap().set_checksum(checksum);
}

/// `TcpPacket::get_checksum`: reads bytes 16 and 17, most significant first.
#[verifier::external_body]
pub(crate) fn tcp_get_checksum(segment: &[u8]) -> (checksum: u16)
    requires
        segment@.len() >= TCP_HEADER_LEN,
    ensures
        checksum == word_at(segment@, TCP_CHECKSUM_AT as int),
{
    TcpPacket::new(segment).unwrap().get_checksum()
}

/// `pnet::packet::tcp::ipv4_checksum`: the TCP checksum of the whole buffer
/// under the IPv4 pseudo-header of the two addresses. It passes over the
/// 16-bit word at the checksum field, so that the result is that for the
/// same bytes with a zero checksum field. Its 32-bit running sum cannot
/// overflow on a buffer of at most `MAX_SEGMENT_LEN` bytes.
#[verifier::external_body]
pub(crate) fn tcp_checksum(segment: &[u8], source: Ipv4Address, destination: Ipv4Address) -> (checksum: u16)
    requires
        TCP_HEADER_LEN <= segment@.len() <= MAX_SEGMENT_LEN,
    ensures
        checksum == tcp_ipv4_checksum(with_zero_checksum(segment@), source@, destination@),
{
    pnet::packet::tcp::ipv4_checksum(
        &TcpPacket::new(segment).unwrap(),
        &[source.a, source.b, source.c, source.d].into(),
        &[destination.a, destination.b, destination.c, destination.d].into(),
    )
}

/// What a reply's TCP header says that the scan reads.
#[derive(Clone, Copy, Debug, PartialEq, Eq, Structural)]
pub struct TcpFields {
    pub source: u16,
    pub destination: u16,
    pub flags: u8,
}

/// What an IPv4 packet says that the scan reads.
#[derive(Debug)]
pub struct Ipv4Fields {
    pub protocol: u8,
    pub source: Ipv4Address,
    pub payload: Vec<u8>,
}

/// What follows the header of an Ethernet frame; a frame shorter than the
/// header is none.
pub open spec fn ethernet_payload(frame: Seq<u8>) -> Option<Seq<u8>> {
    if frame.len() >= ETHERNET_HEADER_LEN {
        Some(frame.subrange(ETHERNET_HEADER_LEN as int, frame.len() as int))
    } else {
        None
    }
}

/// The header length that an IPv4 packet states, in bytes: four times the
/// lower half of its first byte.
pub open spec fn ipv4_stated_header_len(packet: Seq<u8>) -> int {
    (packet[0] % 16) * 4
}

/// Where the payload of an IPv4 packet starts: after the stated header, and
/// never before the end of the base header.
pub open spec fn ipv4_payload_start(packet: Seq<u8>) -> int {
    if ipv4_stated_header_len(packet) > IPV4_HEADER_LEN {
        ipv4_stated_header_len(packet)
    } else {
        IPV4_HEADER_LEN as int
    }
}

/// The payload length that an IPv4 packet states: its total length less its
/// stated header length, and never less than nothing.
pub open spec fn ipv4_stated_payload_len(packet: Seq<u8>) -> int {
    if word_at(packet, 2) > ipv4_stated_header_len(packet) {
        word_at(packet, 2) - ipv4_stated_header_len(packet)
    } else {
        0
    }
}

/// The payload of an IPv4 packet of at least `IPV4_HEADER_LEN` bytes: as
/// many bytes from its start as the packet states, or as the buffer holds
/// where it holds fewer.
pub open spec fn ipv4_payload(packet: Seq<u8>) -> Seq<u8> {
    let start = ipv4_payload_start(packet);
    let stated_end = start + ipv4_stated_payload_len(packet);
    if packet.len() <= start {
        Seq::empty()
    } else if stated_end < packet.len() {
        packet.subrange(start, stated_end)
    } else {
        packet.subrange(start, packet.len() as int)
    }
}

/// The fields of a TCP header; a buffer shorter than the base header has
/// none.
pub open spec fn tcp_fields(segment: Seq<u8>) -> Option<TcpFields> {
    if segment.len() >= TCP_HEADER_LEN {
        Some(
            TcpFields {
                source: word_at(segment, 0),
                destination: word_at(segment, 2),
                flags: segment[13],
            },
        )
    } else {
        None
    }
}

/// `EthernetPacket::new` and `Packet::payload`: a frame of at least 14
/// bytes is taken, and its payload is all that follows those 14 bytes.
#[verifier::external_body]
pub(crate) fn decode_ethernet(frame: &[u8]) -> (payload: Option<Vec<u8>>)
    ensures
        payload.is_some() == ethernet_payload(frame@).is_some(),
        payload matches Some(bytes) ==> Some(bytes@) == ethernet_payload(frame@),
{
    EthernetPacket::new(frame).map(|packet| packet.payload().to_vec())
}

/// `Ipv4Packet::new`, `get_next_level_protocol`, `get_source` and
/// `Packet::payload`: a buffer of at least 20 bytes is taken; the protocol
/// is byte 9 and the source address bytes 12 to 15. The payload starts
/// after the options, whose length `pnet` takes from the header-length
/// field, and is as long as the total-length field leaves once the stated
/// header is taken off; it ends with the buffer at the latest.
#[verifier::external_body]
pub(crate) fn decode_ipv4(packet: &[u8]) -> (fields: Option<Ipv4Fields>)
    ensures
        fields.is_some() == (packet@.len() >= IPV4_HEADER_LEN),
        fields matches Some(found) ==> {
            &&& found.protocol == packet@[9]
            &&& found.source@ == packet@.subrange(12, 16)
            &&& found.payload@ == ipv4_payload(packet@)
        },
{
    Ipv4Packet::new(packet).map(
        |header| {
            let source = header.get_source().octets();
            Ipv4Fields {
                protocol: header.get_next_level_protocol().0,
                source: Ipv4Address { a: source[0], b: source[1], c: source[2], d: source[3] },
                payload: header.payload().to_vec(),
            }
        },
    )
}

/// `TcpPacket::new`, `get_source`, `get_destination` and `get_flags`: a
/// buffer of at least 20 bytes is taken; the ports are bytes 0 to 1 and 2 to
/// 3, most significant byte first, and the flags are byte 13.
#[verifier::external_body]
pub(crate) fn decode_tcp(segment: &[u8]) -> (fields: Option<TcpFields>)
    ensures
        fields == tcp_fields(segment@),
{
    TcpPacket::new(segment).map(
        |header| {
            TcpFields {
                source: header.get_source(),
                destination: header.get_destination(),
                flags: header.get_flags(),
            }
        },
    )
}

/// `rand::random::<u32>`: some 32-bit value; nothing is known of it.
#[verifier::external_body]
pub(crate) fn random_sequence() -> u32 {
    rand::random::<u32>()
}

/// `Rng::gen_range` on `rand::thread_rng()` over `low..=high`: some value of
/// that range. An empty range makes the call panic.
#[verifier::external_body]
pub(crate) fn random_port(low: u16, high: u16) -> (port: u16)
    requires
        low <= high,
    ensures
        low <= port <= high,
{
    rand::thread_rng().gen_range(low..=high)
}

} // verus!
