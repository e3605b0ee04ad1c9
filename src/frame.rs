use byte::BytesExt;
use ieee802154::mac::{
    Address, ExtendedAddress, FooterMode, Frame, FrameContent, FrameSerDesContext, FrameType,
    FrameVersion, Header, PanId, ShortAddress,
};
use vstd::prelude::*;

verus! {

/// A MAC address with the id of its network.
#[derive(Clone, Copy, Debug, PartialEq, Eq, Structural)]
pub enum MacAddress {
    /// A 16-bit short address
    Short { pan_id: u16, addr: u16 },
    /// A 64-bit extended address
    Extended { pan_id: u16, addr: u64 },
}

/// The bytes of an IEEE 802.15.4 data frame with sequence number `seq`, from
/// `source` to `destination`, carrying `payload`, without security and
/// without the checksum, as ieee802154 encodes it.
pub uninterp spec fn data_frame_bytes(
    seq: u8,
    destination: Option<MacAddress>,
    source: MacAddress,
    payload: Seq<u8>,
) -> Seq<u8>;

/// Relies on ieee802154's encoding of a `Frame` (its `TryWrite` impl, called
/// through byte's `write_with`) for a data frame of the 2006 standard with no
/// security, no acknowledgement request and no footer, written into `buf`
/// from its start. Every write of the encoder checks the room left, so it
/// fails exactly where the frame does not fit in `buf`; on success it gives
/// the frame's length.
#[verifier::external_body]
pub(crate) fn encode_data_frame(
    seq: u8,
    destination: Option<MacAddress>,
    source: MacAddress,
    payload: &[u8],
    buf: &mut Vec<u8>,
) -> (r: Option<usize>)
    ensures
        final(buf)@.len() == old(buf)@.len(),
        r is Some <==> data_frame_bytes(seq, destination, source, payload@).len() <= old(buf)@.len(),
        r matches Some(n) ==> n == data_frame_bytes(seq, destination, source, payload@).len()
            && final(buf)@.subrange(0, n as int) == data_frame_bytes(seq, destination, source, payload@),
{
    let addr = |a| match a {
        MacAddress::Short { pan_id, addr } => Address::Short(PanId(pan_id), ShortAddress(addr)),
        MacAddress::Extended { pan_id, addr } => Address::Extended(PanId(pan_id), ExtendedAddress(addr)),
    };
    let mut len: usize = 0;
    let frame = Frame {
        header: Header { frame_type: FrameType::Data, version: FrameVersion::Ieee802154_2006,
            auxiliary_security_header: None, ie_present: false, seq_no_suppress: false,
            frame_pending: false, ack_request: false, pan_id_compress: false,
            destination: destination.map(addr), source: Some(addr(source)), seq },
        content: FrameContent::Data, payload, footer: [0; 2] };
    let ctx = &mut FrameSerDesContext::no_security(FooterMode::None);
    buf.as_mut_slice().write_with(&mut len, frame, ctx).ok()?;
    Some(len)
}

} // verus!
