//! A cheap structural check of a received frame, for use before or instead
//! of the full pipeline. It only refuses frames that cannot hold a header;
//! everything else it finds is reported as a warning.

use vstd::prelude::*;
use crate::bytes::{read_le_u32, HEADER_LEN};
use crate::header::Header;

verus! {

/// Frame length above which a frame counts as larger than expected.
pub const EXPECTED_MAX_FRAME: usize = 256;

/// What the structural check found in a frame that can hold a header.
#[derive(Clone, Copy, Debug, PartialEq, Eq, Structural)]
pub struct StructureReport {
    /// The destination address read from bytes 0 to 3.
    pub destination: u32,
    /// The source address read from bytes 4 to 7.
    pub source: u32,
    /// The packet identifier read from bytes 8 to 11.
    pub packet_id: u32,
    /// Warning: the frame is longer than 256 bytes.
    pub oversized: bool,
    /// Warning: destination, source and packet identifier are all zero.
    pub all_zero: bool,
}

/// The report on a frame of at least sixteen bytes.
pub open spec fn structure_report(frame: Seq<u8>) -> StructureReport {
    let header = Header::parsed(frame);
    StructureReport {
        destination: header.destination,
        source: header.source,
        packet_id: header.packet_id,
        oversized: frame.len() > EXPECTED_MAX_FRAME,
        all_zero: header.destination == 0 && header.source == 0 && header.packet_id == 0,
    }
}

/// Whether `outcome` is what inspecting `frame` gives: the report for a
/// frame that can hold a header, the message "Packet too small" otherwise.
pub open spec fn is_inspection_of(outcome: Result<StructureReport, &'static str>, frame: Seq<u8>) -> bool {
    match outcome {
        Ok(report) => frame.len() >= HEADER_LEN && report == structure_report(frame),
        Err(message) => frame.len() < HEADER_LEN && message@ == "Packet too small"@,
    }
}

/// Whether `outcome` is what validating `frame` gives: success for a frame
/// that can hold a header, the message "Packet too small" otherwise.
pub open spec fn is_validation_of(outcome: Result<(), &'static str>, frame: Seq<u8>) -> bool {
    match outcome {
        Ok(_) => frame.len() >= HEADER_LEN,
        Err(message) => frame.len() < HEADER_LEN && message@ == "Packet too small"@,
    }
}

/// Checks the structure of a frame and reports what it found.
///
/// Only a frame shorter than a header is refused. The two warnings never
/// turn into a failure.
pub fn inspect_packet_structure(data: &[u8]) -> (outcome: Result<StructureReport, &'static str>)
    ensures
        is_inspection_of(outcome, data@),
{
    if data.len() < HEADER_LEN {
        return Err("Packet too small");
    }
    let destination = read_le_u32(data, 0);
    let source = read_le_u32(data, 4);
    let packet_id = read_le_u32(data, 8);
    Ok(
        StructureReport {
            destination,
            source,
            packet_id,
            oversized: data.len() > EXPECTED_MAX_FRAME,
            all_zero: source == 0 && destination == 0 && packet_id == 0,
        },
    )
}

/// Checks the structure of a frame.
///
/// Succeeds on every frame of sixteen bytes or more, whatever they hold.
pub fn validate_packet_structure(data: &[u8]) -> (outcome: Result<(), &'static str>)
    ensures
        is_validation_of(outcome, data@),
{
    match inspect_packet_structure(data) {
        Ok(_) => Ok(()),
        Err(message) => Err(message),
    }
}

/// The check keeps no state: whatever two runs of
/// `validate_packet_structure` return for the same frame agrees in success
/// and in message.
pub proof fn lemma_validation_repeatable(
    frame: Seq<u8>,
    first: Result<(), &'static str>,
    second: Result<(), &'static str>,
)
    requires
        is_validation_of(first, frame),
        is_validation_of(second, frame),
    ensures
        first is Ok <==> second is Ok,
        first matches Err(a) ==> second matches Err(b) && a@ == b@,
{
}

/// Two runs of `inspect_packet_structure` on the same frame give the same
/// report, warnings included.
pub proof fn lemma_inspection_repeatable(
    frame: Seq<u8>,
    first: Result<StructureReport, &'static str>,
    second: Result<StructureReport, &'static str>,
)
    requires
        is_inspection_of(first, frame),
        is_inspection_of(second, frame),
    ensures
        first is Ok <==> second is Ok,
        first matches Ok(a) ==> second == Ok::<StructureReport, &'static str>(a),
        first matches Err(a) ==> second matches Err(b) && a@ == b@,
{
}

} // verus!
