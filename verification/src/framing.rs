//! Frame lengths: how the size the host declares for a packet identifier and
//! the bytes of the packet itself combine into the length of the frame.

use vstd::prelude::*;
use crate::error::PluginError;

verus! {

/// The declared size that marks a packet identifier as variable-length: the
/// frame then carries its own length in the two bytes after the identifier.
pub const VARIABLE_LENGTH: u16 = 0xFFFF;

/// Number of bytes a variable-length frame needs before its length can be
/// read: the identifier and the two length bytes.
pub const HEADER_LENGTH: usize = 3;

/// The 16-bit value whose high byte is `hi` and whose low byte is `lo`.
pub open spec fn spec_u16_from_bytes(hi: u8, lo: u8) -> u16 {
    ((hi as u16) << 8) | (lo as u16)
}

/// What a reply from the host holds: its bytes, or nothing where the host
/// did not answer.
pub open spec fn reply_bytes(reply: Option<Vec<u8>>) -> Option<Seq<u8>> {
    match reply {
        Some(bytes) => Some(bytes@),
        None => None,
    }
}

/// The size a reply to a size query declares: its first two bytes, low byte
/// first. `None` stands for a query the host did not answer at all; an answer
/// must hold at least two bytes.
pub open spec fn spec_resolve_size(reply: Option<Seq<u8>>) -> Result<u16, PluginError> {
    match reply {
        Some(bytes) if bytes.len() >= 2 => Ok(spec_u16_from_bytes(bytes[1], bytes[0])),
        _ => Err(PluginError::ResolutionFailure),
    }
}

/// The length of the frame that `packet` starts with, given the size the host
/// declares for its identifier.
pub open spec fn spec_frame_length(declared: u16, packet: Seq<u8>) -> Result<u16, PluginError> {
    if declared != VARIABLE_LENGTH {
        Ok(declared)
    } else if packet.len() >= HEADER_LENGTH {
        Ok(spec_u16_from_bytes(packet[1], packet[2]))
    } else {
        Err(PluginError::MalformedPacket)
    }
}

/// Combining two bytes by shifting and or-ing is the same as weighting the
/// high byte by 256 and adding the low one.
pub proof fn lemma_u16_from_bytes_value(hi: u8, lo: u8)
    ensures
        spec_u16_from_bytes(hi, lo) == hi * 256 + lo,
{
    assert(((hi as u16) << 8) | (lo as u16) == hi * 256 + lo) by (bit_vector);
}

/// Joins a high and a low byte into one 16-bit value.
pub fn u16_from_bytes(hi: u8, lo: u8) -> (value: u16)
    ensures
        value == spec_u16_from_bytes(hi, lo),
        value == hi * 256 + lo,
{
    proof {
        lemma_u16_from_bytes_value(hi, lo);
    }
    ((hi as u16) << 8) | (lo as u16)
}

/// The payload of a size query for `packet_id`: the identifier alone.
pub fn size_request(packet_id: u8) -> (request: Vec<u8>)
    ensures
        request@ == seq![packet_id],
{
    let mut request: Vec<u8> = Vec::new();
    request.push(packet_id);
    request
}

/// Reads the declared size out of the host's reply to a size query.
///
/// The host answers with the size as two bytes, low byte first; anything
/// after them is ignored. A missing answer or one of fewer than two bytes is
/// a `ResolutionFailure`: no size is guessed.
pub fn resolve_size(reply: &Option<Vec<u8>>) -> (declared: Result<u16, PluginError>)
    ensures
        declared == spec_resolve_size(reply_bytes(*reply)),
{
    match reply {
        Some(bytes) => {
            if bytes.len() >= 2 {
                Ok(u16_from_bytes(bytes[1], bytes[0]))
            } else {
                Err(PluginError::ResolutionFailure)
            }
        },
        None => Err(PluginError::ResolutionFailure),
    }
}

/// Whether a declared size is the marker for variable-length packets rather
/// than a byte count.
pub fn is_variable_length(declared: u16) -> (variable: bool)
    ensures
        variable == (declared == VARIABLE_LENGTH),
{
    declared == VARIABLE_LENGTH
}

/// The length of the frame that `packet` starts with.
///
/// A declared size other than `VARIABLE_LENGTH` is the frame length, whatever
/// the packet holds. For `VARIABLE_LENGTH` the length is read from the two
/// bytes after the identifier, high byte first; a packet too short to hold
/// them is a `MalformedPacket`.
pub fn frame_length(declared: u16, packet: &[u8]) -> (length: Result<u16, PluginError>)
    ensures
        length == spec_frame_length(declared, packet@),
        declared != VARIABLE_LENGTH ==> length == Ok::<u16, PluginError>(declared),
        declared == VARIABLE_LENGTH && packet@.len() >= 3 ==> length == Ok::<u16, PluginError>(
            spec_u16_from_bytes(packet@[1], packet@[2]),
        ),
        declared == VARIABLE_LENGTH && packet@.len() < 3 ==> length == Err::<u16, PluginError>(
            PluginError::MalformedPacket,
        ),
{
    if !is_variable_length(declared) {
        Ok(declared)
    } else if packet.len() >= HEADER_LENGTH {
        Ok(u16_from_bytes(packet[1], packet[2]))
    } else {
        Err(PluginError::MalformedPacket)
    }
}

} // verus!
