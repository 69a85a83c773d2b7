//! Reading the UDP header of a captured frame, through `etherparse`.

use vstd::prelude::*;

verus! {

/// Why a captured frame gave no port and length.
#[derive(Clone, Copy, Debug, PartialEq, Eq, Hash, Structural)]
pub enum FrameError {
    /// The frame is too short to hold an Ethernet header.
    Malformed,
    /// The frame is an Ethernet frame that carries no UDP header: the
    /// capture filter let through what it should have kept out.
    NotUdp,
}

/// What `etherparse` makes of a frame: `None` where it finds no Ethernet
/// header, `Some(None)` where it finds one and reaches no UDP header behind
/// it, else the source port and the length field of the UDP header.
pub uninterp spec fn sliced_udp_header(frame: Seq<u8>) -> Option<Option<(u16, u16)>>;

/// Slices a frame with `etherparse::LaxSlicedPacket::from_ethernet`, which
/// accepts frames that the capture has cut short, and reads the UDP header
/// with `UdpSlice::source_port` and `UdpSlice::length`. The slicer fails only
/// on a frame shorter than an Ethernet header; whatever else stops it leaves
/// the transport empty.
///
/// The contract gives the result a name and claims only that it depends on
/// the bytes of the frame alone.
#[verifier::external_body]
fn slice_udp_header(frame: &[u8]) -> (sliced: Option<Option<(u16, u16)>>)
    ensures
        sliced == sliced_udp_header(frame@),
{
    match etherparse::LaxSlicedPacket::from_ethernet(frame) {
        Ok(packet) => match packet.transport {
            Some(etherparse::TransportSlice::Udp(udp)) => Some(
                Some((udp.source_port(), udp.length())),
            ),
            _ => Some(None),
        },
        Err(_) => None,
    }
}

/// The source port and length that a sliced frame yields, or the reason it
/// yields none.
pub open spec fn udp_fields(sliced: Option<Option<(u16, u16)>>) -> Result<(u16, u16), FrameError> {
    match sliced {
        Some(Some(fields)) => Ok(fields),
        Some(None) => Err(FrameError::NotUdp),
        None => Err(FrameError::Malformed),
    }
}

/// Turn what the slicer found into the source port and length, or the error
/// that ends the capture.
pub fn read_udp_fields(sliced: Option<Option<(u16, u16)>>) -> (fields: Result<
    (u16, u16),
    FrameError,
>)
    ensures
        fields == udp_fields(sliced),
{
    match sliced {
        Some(Some(fields)) => Ok(fields),
        Some(None) => Err(FrameError::NotUdp),
        None => Err(FrameError::Malformed),
    }
}

/// Given a captured frame, extract the UDP source port and packet length.
pub fn unpack_packet(frame: &[u8]) -> (fields: Result<(u16, u16), FrameError>)
    ensures
        fields == udp_fields(sliced_udp_header(frame@)),
{
    read_udp_fields(slice_udp_header(frame))
}

} // verus!
