//! The probes of a scan: one SYN segment for each port of the request.

use crate::config::{ScanConfig, ScanRequest};
use crate::packet::{
    build_syn_segment, checksum_valid, expected_checksum, syn_header, syn_segment, with_checksum,
    DATA_OFFSET_WORDS, MAX_SEGMENT_SIZE, SYN, SYN_SEGMENT_LEN, WINDOW_SIZE,
};
use crate::wire::{be16, be32, mss_option, random_sequence, word_at};
use vstd::prelude::*;

verus! {

/// How long a send waits after its probe has gone out, in milliseconds,
/// before it gives its permit back.
pub const SEND_THROTTLE_MILLIS: u64 = 1;

/// A buffer of `len` zero bytes.
pub open spec fn zeroes(len: nat) -> Seq<u8> {
    Seq::new(len, |i: int| 0u8)
}

/// The 24 bytes of a probe, field by field, with `checksum` in its checksum
/// field.
pub open spec fn probe_bytes(
    source_port: u16,
    destination_port: u16,
    sequence: u32,
    checksum: u16,
) -> Seq<u8> {
    be16(source_port) + be16(destination_port) + be32(sequence) + seq![0u8, 0u8, 0u8, 0u8]
        + seq![(DATA_OFFSET_WORDS * 16) as u8, SYN] + be16(WINDOW_SIZE) + be16(checksum)
        + seq![0u8, 0u8] + mss_option(MAX_SEGMENT_SIZE)
}

/// The probe that a scan sends to `destination_port` with the given sequence
/// number: the 24 bytes of its fields, carrying their own checksum.
pub open spec fn probe(config: ScanConfig, destination_port: u16, sequence: u32) -> Seq<u8> {
    probe_bytes(
        config.source_port,
        destination_port,
        sequence,
        expected_checksum(
            probe_bytes(config.source_port, destination_port, sequence, 0),
            config.source_ip,
            config.target_ip,
        ),
    )
}

/// A SYN segment written over a fresh buffer is the probe, field by field.
pub proof fn lemma_fresh_segment_is_probe(config: ScanConfig, destination_port: u16, sequence: u32)
    ensures
        syn_segment(
            zeroes(SYN_SEGMENT_LEN as nat),
            config.source_port,
            destination_port,
            sequence,
            config.source_ip,
            config.target_ip,
        ) == probe(config, destination_port, sequence),
{
    let fresh = zeroes(SYN_SEGMENT_LEN as nat);
    let header = syn_header(fresh, config.source_port, destination_port, sequence);
    assert(header =~= probe_bytes(config.source_port, destination_port, sequence, 0));
    let checksum = expected_checksum(header, config.source_ip, config.target_ip);
    assert(with_checksum(header, checksum) =~= probe_bytes(
        config.source_port,
        destination_port,
        sequence,
        checksum,
    ));
}

/// A probe says which port it comes from and which it goes to: they can be
/// read back from its first four bytes.
pub proof fn lemma_probe_ports(config: ScanConfig, destination_port: u16, sequence: u32)
    ensures
        probe(config, destination_port, sequence).len() == SYN_SEGMENT_LEN,
        word_at(probe(config, destination_port, sequence), 0) == config.source_port,
        word_at(probe(config, destination_port, sequence), 2) == destination_port,
{
}

/// The ports of a range `[start, end)` are `end - start` in number, and no
/// two of them are the same.
pub proof fn lemma_range_ports_distinct(start: u16, end: u16, i: int, j: int)
    requires
        start <= end,
        0 <= i < j < end - start,
    ensures
        (ScanRequest::PortRange { start, end }).ports().len() == end - start,
        (ScanRequest::PortRange { start, end }).ports()[i] != (ScanRequest::PortRange {
            start,
            end,
        }).ports()[j],
{
}

/// The probes of a range `[start, end)` are `end - start` distinct
/// segments: whatever their sequence numbers, two of them differ in their
/// destination ports, and all leave the same source port.
pub proof fn lemma_range_probes_distinct(
    config: ScanConfig,
    start: u16,
    end: u16,
    i: int,
    j: int,
    sequence_i: u32,
    sequence_j: u32,
)
    requires
        start <= end,
        0 <= i < j < end - start,
    ensures
        ({
            let ports = (ScanRequest::PortRange { start, end }).ports();
            let first = probe(config, ports[i], sequence_i);
            let second = probe(config, ports[j], sequence_j);
            &&& ports.len() == end - start
            &&& first != second
            &&& word_at(first, 2) != word_at(second, 2)
            &&& word_at(first, 0) == config.source_port
            &&& word_at(second, 0) == config.source_port
        }),
{
    let ports = (ScanRequest::PortRange { start, end }).ports();
    lemma_range_ports_distinct(start, end, i, j);
    lemma_probe_ports(config, ports[i], sequence_i);
    lemma_probe_ports(config, ports[j], sequence_j);
}

/// Builds the probe for `destination_port` with the given sequence number
/// in a fresh buffer.
pub fn syn_probe_with(config: &ScanConfig, destination_port: u16, sequence: u32) -> (segment: Vec<u8>)
    ensures
        segment@ == probe(*config, destination_port, sequence),
        segment@.len() == SYN_SEGMENT_LEN,
        checksum_valid(segment@, config.source_ip, config.target_ip),
{
    let mut segment: Vec<u8> = vec![0u8; SYN_SEGMENT_LEN];
    assert(segment@ =~= zeroes(SYN_SEGMENT_LEN as nat));
    build_syn_segment(
        segment.as_mut_slice(),
        config.source_port,
        destination_port,
        sequence,
        config.source_ip,
        config.target_ip,
    );
    proof {
        lemma_fresh_segment_is_probe(*config, destination_port, sequence);
    }
    segment
}

/// Builds the probe for `destination_port` with a freshly drawn sequence
/// number in a fresh buffer.
pub fn syn_probe(config: &ScanConfig, destination_port: u16) -> (segment: Vec<u8>)
    ensures
        exists|sequence: u32| segment@ == #[trigger] probe(*config, destination_port, sequence),
        segment@.len() == SYN_SEGMENT_LEN,
        checksum_valid(segment@, config.source_ip, config.target_ip),
        word_at(segment@, 0) == config.source_port,
        word_at(segment@, 2) == destination_port,
{
    let sequence = random_sequence();
    proof {
        lemma_probe_ports(*config, destination_port, sequence);
    }
    syn_probe_with(config, destination_port, sequence)
}

} // verus!
