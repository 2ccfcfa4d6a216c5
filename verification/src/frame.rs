//! Recognising replies to probes in captured link-layer frames.

use crate::address::{lemma_view_injective, Ipv4Address};
use crate::config::ScanConfig;
use crate::packet::{ACK, SYN};
use crate::wire::{
    decode_ethernet, decode_ipv4, decode_tcp, ethernet_payload, ipv4_payload, tcp_fields,
    TcpFields, IPV4_HEADER_LEN,
};
use vstd::prelude::*;

verus! {

/// The protocol number of TCP in an IPv4 header.
pub const PROTOCOL_TCP: u8 = 6;

/// The flags of a reply that shows an open port: SYN and ACK, and no other.
pub const SYN_ACK: u8 = 0x12;

/// A TCP segment that came in an IPv4 packet, as far as the scan reads it.
#[derive(Clone, Copy, Debug, PartialEq, Eq, Structural)]
pub struct Reply {
    /// The source address of the IPv4 packet.
    pub from: Ipv4Address,
    /// The ports and flags of the TCP header.
    pub tcp: TcpFields,
}

/// The address whose octets stand at `at` in `bytes`.
pub open spec fn address_at(bytes: Seq<u8>, at: int) -> Ipv4Address {
    Ipv4Address { a: bytes[at], b: bytes[at + 1], c: bytes[at + 2], d: bytes[at + 3] }
}

/// What a frame decodes to: its Ethernet payload read as an IPv4 packet,
/// whose protocol must be TCP, and that packet's payload read as a TCP
/// header. A frame that is too short at any layer, or carries another
/// protocol, decodes to nothing.
pub open spec fn decoded(frame: Seq<u8>) -> Option<Reply> {
    match ethernet_payload(frame) {
        None => None,
        Some(packet) => {
            if packet.len() < IPV4_HEADER_LEN || packet[9] != PROTOCOL_TCP {
                None
            } else {
                match tcp_fields(ipv4_payload(packet)) {
                    None => None,
                    Some(tcp) => Some(Reply { from: address_at(packet, 12), tcp }),
                }
            }
        },
    }
}

/// Whether a reply belongs to the scan: it is addressed to the scan's source
/// port and comes from the scan's target.
pub open spec fn relevant(reply: Reply, config: ScanConfig) -> bool {
    reply.tcp.destination == config.source_port && reply.from == config.target_ip
}

/// The open port that a reply is evidence of, if any: the port it came from,
/// where the reply belongs to the scan and its flags are exactly SYN and ACK.
pub open spec fn open_port_of(reply: Reply, config: ScanConfig) -> Option<u16> {
    if relevant(reply, config) && reply.tcp.flags == SYN_ACK {
        Some(reply.tcp.source)
    } else {
        None
    }
}

/// The open port that a captured frame is evidence of, if any.
pub open spec fn frame_open_port(frame: Seq<u8>, config: ScanConfig) -> Option<u16> {
    match decoded(frame) {
        None => None,
        Some(reply) => open_port_of(reply, config),
    }
}

/// What the listener does after one captured frame.
#[derive(Clone, Copy, Debug, PartialEq, Eq, Structural)]
pub struct ListenerStep {
    /// The open port to hand to the results channel, if the frame showed one.
    pub open_port: Option<u16>,
    /// Whether the discovery is to be announced at once.
    pub announce: bool,
    /// Whether the listener waits for another frame or ends.
    pub keep_listening: bool,
}

/// What the listener does after a frame, as a function of the frame, the
/// scan's settings and the stop signal as it stands once the frame has been
/// looked at.
pub open spec fn listener_step(frame: Seq<u8>, config: ScanConfig, scan_finished: bool) -> ListenerStep {
    ListenerStep {
        open_port: frame_open_port(frame, config),
        announce: config.verbose && frame_open_port(frame, config).is_some(),
        keep_listening: !scan_finished,
    }
}

/// Decodes a captured frame down to its TCP header.
pub fn decode_frame(frame: &[u8]) -> (reply: Option<Reply>)
    ensures
        reply == decoded(frame@),
{
    let packet = match decode_ethernet(frame) {
        Some(packet) => packet,
        None => { return None; },
    };
    let ipv4 = match decode_ipv4(packet.as_slice()) {
        Some(ipv4) => ipv4,
        None => { return None; },
    };
    if ipv4.protocol != PROTOCOL_TCP {
        return None;
    }
    proof {
        lemma_view_injective(ipv4.source, address_at(packet@, 12));
    }
    match decode_tcp(ipv4.payload.as_slice()) {
        Some(tcp) => Some(Reply { from: ipv4.source, tcp }),
        None => None,
    }
}

/// Decides whether a decoded reply shows an open port.
///
/// A reply to another port than the scan's source port, or from another
/// host than the target, shows nothing, whatever its flags. One that belongs
/// to the scan shows the port it came from if its flags are exactly SYN and
/// ACK, and nothing otherwise.
pub fn classify_reply(reply: Reply, config: &ScanConfig) -> (open_port: Option<u16>)
    ensures
        open_port == open_port_of(reply, *config),
        reply.tcp.destination != config.source_port ==> open_port.is_none(),
        reply.from != config.target_ip ==> open_port.is_none(),
        relevant(reply, *config) && reply.tcp.flags == SYN + ACK ==> open_port == Some(
            reply.tcp.source,
        ),
        relevant(reply, *config) && reply.tcp.flags != SYN + ACK ==> open_port.is_none(),
{
    if !(reply.tcp.destination == config.source_port && reply.from == config.target_ip) {
        None
    } else if reply.tcp.flags == SYN_ACK {
        Some(reply.tcp.source)
    } else {
        None
    }
}

/// Decides whether a captured frame shows an open port of the target.
pub fn classify_frame(frame: &[u8], config: &ScanConfig) -> (open_port: Option<u16>)
    ensures
        open_port == frame_open_port(frame@, *config),
{
    match decode_frame(frame) {
        Some(reply) => classify_reply(reply, config),
        None => None,
    }
}

/// One turn of the listener: looks at a captured frame, then at the stop
/// signal. The caller forwards the open port, if there is one, and goes on
/// to the next frame unless the scan has been declared finished.
pub fn handle_scan_response(frame: &[u8], config: &ScanConfig, scan_finished: bool) -> (step: ListenerStep)
    ensures
        step == listener_step(frame@, *config, scan_finished),
{
    let open_port = classify_frame(frame, config);
    ListenerStep {
        open_port,
        announce: config.verbose && open_port.is_some(),
        keep_listening: !scan_finished,
    }
}

/// A frame that decodes to a reply for another port, or from another host,
/// shows no open port, whatever its flags.
pub proof fn lemma_irrelevant_frame_shows_nothing(frame: Seq<u8>, config: ScanConfig)
    requires
        decoded(frame) matches Some(reply) && (reply.tcp.destination != config.source_port
            || reply.from != config.target_ip),
    ensures
        frame_open_port(frame, config).is_none(),
{
}

/// A frame that decodes to a reply of the scan shows exactly the port it
/// came from if its flags are SYN and ACK alone, and nothing otherwise.
pub proof fn lemma_relevant_frame_shows_source_port(frame: Seq<u8>, config: ScanConfig)
    requires
        decoded(frame) matches Some(reply) && relevant(reply, config),
    ensures
        decoded(frame)->Some_0.tcp.flags == SYN + ACK ==> frame_open_port(frame, config) == Some(
            decoded(frame)->Some_0.tcp.source,
        ),
        decoded(frame)->Some_0.tcp.flags != SYN + ACK ==> frame_open_port(frame, config).is_none(),
{
}

/// A frame that does not decode shows no open port.
pub proof fn lemma_undecodable_frame_shows_nothing(frame: Seq<u8>, config: ScanConfig)
    requires
        decoded(frame).is_none(),
    ensures
        frame_open_port(frame, config).is_none(),
{
}

} // verus!
