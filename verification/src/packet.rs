//! Building the SYN segment that probes one port.

use crate::address::Ipv4Address;
use crate::wire::{
    be16, be32, mss_option, put_bytes, random_sequence, tcp_checksum, tcp_get_checksum,
    tcp_ipv4_checksum, tcp_set_checksum, tcp_set_data_offset, tcp_set_destination, tcp_set_flags,
    tcp_set_mss_option, tcp_set_sequence, tcp_set_source, tcp_set_window, with_zero_checksum,
    word_at, MAX_SEGMENT_LEN, TCP_CHECKSUM_AT, TCP_HEADER_LEN, TCP_OPTIONS_AT,
};
use vstd::prelude::*;

verus! {

/// The SYN flag bit of a TCP header.
pub const SYN: u8 = 0x02;

/// The ACK flag bit of a TCP header.
pub const ACK: u8 = 0x10;

/// The window size that every probe announces.
pub const WINDOW_SIZE: u16 = 1024;

/// The maximum segment size that every probe announces in its one option.
pub const MAX_SEGMENT_SIZE: u16 = 1460;

/// Header length of a probe in 32-bit words: the base header and one
/// four-byte option.
pub const DATA_OFFSET_WORDS: u8 = 6;

/// Length of a probe in bytes.
pub const SYN_SEGMENT_LEN: usize = 24;

/// A buffer after the header of a SYN probe has been written over it.
///
/// | bytes  | field                 | value                              |
/// |--------|-----------------------|------------------------------------|
/// | 0..2   | source port           | `source_port`                      |
/// | 2..4   | destination port      | `destination_port`                 |
/// | 4..8   | sequence number       | `sequence`                         |
/// | 8..12  | acknowledgement       | as in `buffer`                     |
/// | 12     | data offset, reserved | offset 6; reserved as in `buffer`  |
/// | 13     | flags                 | SYN alone                          |
/// | 14..16 | window                | 1024                               |
/// | 16..20 | checksum, urgent      | as in `buffer`                     |
/// | 20..24 | option                | maximum segment size 1460          |
/// | 24..   |                       | as in `buffer`                     |
pub open spec fn syn_header(
    buffer: Seq<u8>,
    source_port: u16,
    destination_port: u16,
    sequence: u32,
) -> Seq<u8> {
    let ports = put_bytes(put_bytes(buffer, 0, be16(source_port)), 2, be16(destination_port));
    let numbered = put_bytes(ports, 4, be32(sequence));
    let shaped = numbered.update(12, (buffer[12] % 16 + DATA_OFFSET_WORDS * 16) as u8).update(
        13,
        SYN,
    );
    let windowed = put_bytes(shaped, 14, be16(WINDOW_SIZE));
    put_bytes(windowed, TCP_OPTIONS_AT as int, mss_option(MAX_SEGMENT_SIZE))
}

/// A segment with `checksum` written into its checksum field.
pub open spec fn with_checksum(segment: Seq<u8>, checksum: u16) -> Seq<u8> {
    put_bytes(segment, TCP_CHECKSUM_AT as int, be16(checksum))
}

/// The value that stands in a segment's checksum field.
pub open spec fn stored_checksum(segment: Seq<u8>) -> u16 {
    word_at(segment, TCP_CHECKSUM_AT as int)
}

/// The checksum that a segment must carry between the two addresses.
pub open spec fn expected_checksum(
    segment: Seq<u8>,
    source_ip: Ipv4Address,
    destination_ip: Ipv4Address,
) -> u16 {
    tcp_ipv4_checksum(with_zero_checksum(segment), source_ip@, destination_ip@)
}

/// Whether a segment is one whose checksum can be taken and whose checksum
/// field holds the checksum of its bytes under the pseudo-header of the two
/// addresses.
pub open spec fn checksum_valid(
    segment: Seq<u8>,
    source_ip: Ipv4Address,
    destination_ip: Ipv4Address,
) -> bool {
    &&& TCP_HEADER_LEN <= segment.len() <= MAX_SEGMENT_LEN
    &&& stored_checksum(segment) == expected_checksum(segment, source_ip, destination_ip)
}

/// A buffer after a complete SYN probe has been written over it: the header
/// fields, then the checksum of the result.
pub open spec fn syn_segment(
    buffer: Seq<u8>,
    source_port: u16,
    destination_port: u16,
    sequence: u32,
    source_ip: Ipv4Address,
    destination_ip: Ipv4Address,
) -> Seq<u8> {
    let header = syn_header(buffer, source_port, destination_port, sequence);
    with_checksum(header, expected_checksum(header, source_ip, destination_ip))
}

/// The two bytes of a 16-bit value give the value back.
pub proof fn lemma_be16_round_trip(bytes: Seq<u8>, at: int, value: u16)
    requires
        0 <= at,
        at + 2 <= bytes.len(),
    ensures
        word_at(put_bytes(bytes, at, be16(value)), at) == value,
{
    let written = put_bytes(bytes, at, be16(value));
    assert(written[at] == be16(value)[0]);
    assert(written[at + 1] == be16(value)[1]);
}

/// Writing the checksum field does not change the checksum that the segment
/// must carry between any two addresses.
pub proof fn lemma_checksum_field_ignored(
    segment: Seq<u8>,
    checksum: u16,
    source_ip: Ipv4Address,
    destination_ip: Ipv4Address,
)
    requires
        segment.len() >= TCP_HEADER_LEN,
    ensures
        expected_checksum(with_checksum(segment, checksum), source_ip, destination_ip)
            == expected_checksum(segment, source_ip, destination_ip),
{
    assert(with_zero_checksum(with_checksum(segment, checksum)) =~= with_zero_checksum(segment));
}

/// A SYN probe written over any buffer that can hold it carries a valid
/// checksum: taken anew over the finished bytes and the pseudo-header of the
/// two addresses, the checksum is the one that stands in the segment.
pub proof fn lemma_syn_segment_checksum_valid(
    buffer: Seq<u8>,
    source_port: u16,
    destination_port: u16,
    sequence: u32,
    source_ip: Ipv4Address,
    destination_ip: Ipv4Address,
)
    requires
        SYN_SEGMENT_LEN <= buffer.len() <= MAX_SEGMENT_LEN,
    ensures
        checksum_valid(
            syn_segment(buffer, source_port, destination_port, sequence, source_ip, destination_ip),
            source_ip,
            destination_ip,
        ),
{
    let header = syn_header(buffer, source_port, destination_port, sequence);
    let checksum = expected_checksum(header, source_ip, destination_ip);
    lemma_be16_round_trip(header, TCP_CHECKSUM_AT as int, checksum);
    lemma_checksum_field_ignored(header, checksum, source_ip, destination_ip);
}

/// Writes the header fields of a SYN probe into `buffer`: everything but the
/// checksum.
pub fn write_syn_header(buffer: &mut [u8], source_port: u16, destination_port: u16, sequence: u32)
    requires
        old(buffer)@.len() >= SYN_SEGMENT_LEN,
    ensures
        final(buffer)@ == syn_header(old(buffer)@, source_port, destination_port, sequence),
{
    tcp_set_flags(buffer, SYN);
    tcp_set_source(buffer, source_port);
    tcp_set_destination(buffer, destination_port);
    tcp_set_window(buffer, WINDOW_SIZE);
    tcp_set_data_offset(buffer, DATA_OFFSET_WORDS);
    tcp_set_sequence(buffer, sequence);
    tcp_set_mss_option(buffer, MAX_SEGMENT_SIZE);
    assert(buffer@ =~= syn_header(old(buffer)@, source_port, destination_port, sequence));
}

/// Writes `checksum` into the checksum field of the segment in `buffer`.
pub fn store_checksum(buffer: &mut [u8], checksum: u16)
    requires
        old(buffer)@.len() >= TCP_HEADER_LEN,
    ensures
        final(buffer)@ == with_checksum(old(buffer)@, checksum),
        stored_checksum(final(buffer)@) == checksum,
{
    tcp_set_checksum(buffer, checksum);
    proof {
        lemma_be16_round_trip(old(buffer)@, TCP_CHECKSUM_AT as int, checksum);
    }
}

/// Writes a complete SYN probe with the given sequence number into `buffer`.
/// The checksum covers the whole buffer, and the finished segment carries
/// the checksum of its own bytes.
pub fn build_syn_segment(
    buffer: &mut [u8],
    source_port: u16,
    destination_port: u16,
    sequence: u32,
    source_ip: Ipv4Address,
    destination_ip: Ipv4Address,
)
    requires
        SYN_SEGMENT_LEN <= old(buffer)@.len() <= MAX_SEGMENT_LEN,
    ensures
        final(buffer)@ == syn_segment(
            old(buffer)@,
            source_port,
            destination_port,
            sequence,
            source_ip,
            destination_ip,
        ),
        checksum_valid(final(buffer)@, source_ip, destination_ip),
{
    write_syn_header(buffer, source_port, destination_port, sequence);
    let checksum = tcp_checksum(buffer, source_ip, destination_ip);
    store_checksum(buffer, checksum);
    proof {
        lemma_syn_segment_checksum_valid(
            old(buffer)@,
            source_port,
            destination_port,
            sequence,
            source_ip,
            destination_ip,
        );
    }
}

/// Writes a SYN probe with a freshly drawn sequence number into `buff`.
pub fn create_tcp_packet(
    buff: &mut [u8],
    source_port: u16,
    destination_port: u16,
    source_ip: Ipv4Address,
    target_ip: Ipv4Address,
)
    requires
        SYN_SEGMENT_LEN <= old(buff)@.len() <= MAX_SEGMENT_LEN,
    ensures
        exists|sequence: u32|
            final(buff)@ == #[trigger] syn_segment(
                old(buff)@,
                source_port,
                destination_port,
                sequence,
                source_ip,
                target_ip,
            ),
        checksum_valid(final(buff)@, source_ip, target_ip),
{
    let sequence = random_sequence();
    build_syn_segment(buff, source_port, destination_port, sequence, source_ip, target_ip);
}

/// Takes the checksum of `segment` anew and compares it with the one that
/// the segment carries. A buffer too short to hold a TCP header, or longer
/// than any IPv4 packet, carries no valid checksum.
pub fn checksum_is_valid(segment: &[u8], source_ip: Ipv4Address, destination_ip: Ipv4Address) -> (valid: bool)
    ensures
        valid == checksum_valid(segment@, source_ip, destination_ip),
{
    if segment.len() < TCP_HEADER_LEN || segment.len() > MAX_SEGMENT_LEN {
        return false;
    }
    let stored = tcp_get_checksum(segment);
    let expected = tcp_checksum(segment, source_ip, destination_ip);
    stored == expected
}

} // verus!
