use vstd::prelude::*;

verus! {

/// Capacity of the transmit buffer, length byte included.
pub const MAX_PACKET_LEN: usize = 128;

/// Bytes that the hardware appends to the payload, counted by the length byte.
pub const TRAILER_LEN: usize = 2;

/// Why a transmission was refused or did not complete.
#[derive(Clone, Copy, Debug, PartialEq, Eq, Structural)]
pub enum TxError {
    /// The payload does not fit the transmit buffer beside its length byte.
    PayloadTooLong,
}

/// A payload length that the transmit buffer can carry.
pub open spec fn payload_fits(len: int) -> bool {
    len < MAX_PACKET_LEN - 1
}

/// The transmit buffer for `data`: the length byte (payload length plus the
/// trailer), the payload, and zeros up to the buffer's capacity.
pub open spec fn frame_of(data: Seq<u8>) -> Seq<u8> {
    seq![(data.len() + TRAILER_LEN) as u8] + data + Seq::new(
        (MAX_PACKET_LEN - 1 - data.len()) as nat,
        |i: int| 0u8,
    )
}

/// Builds the transmit buffer for `data`, or refuses a payload that does not
/// fit.
pub fn build_frame(data: &[u8]) -> (r: Result<Vec<u8>, TxError>)
    ensures
        payload_fits(data@.len() as int) <==> r.is_ok(),
        r matches Ok(buf) ==> buf@ == frame_of(data@),
        r matches Err(e) ==> e == TxError::PayloadTooLong,
{
    let len: usize = data.len();
    if len >= MAX_PACKET_LEN - 1 {
        return Err(TxError::PayloadTooLong);
    }
    let mut buf: Vec<u8> = Vec::with_capacity(MAX_PACKET_LEN);
    buf.push((len + TRAILER_LEN) as u8);
    let mut i: usize = 0;
    while i < len
        invariant
            len == data@.len(),
            i <= len,
            buf@ == seq![(len + TRAILER_LEN) as u8] + data@.subrange(0, i as int),
        decreases len - i,
    {
        buf.push(data[i]);
        i += 1;
        assert(data@.subrange(0, i as int) == data@.subrange(0, i - 1) + seq![data@[i - 1]]);
    }
    assert(data@.subrange(0, len as int) == data@);
    let ghost head = buf@;
    while buf.len() < MAX_PACKET_LEN
        invariant
            head.len() == len + 1,
            len + 1 <= buf@.len() <= MAX_PACKET_LEN,
            buf@ == head + Seq::new((buf@.len() - head.len()) as nat, |k: int| 0u8),
        decreases MAX_PACKET_LEN - buf.len(),
    {
        buf.push(0u8);
        assert(buf@ == head + Seq::new((buf@.len() - head.len()) as nat, |k: int| 0u8));
    }
    Ok(buf)
}

/// A payload that fits is carried unchanged after its length byte, and
/// nothing past it holds anything but zeros.
pub proof fn lemma_frame_layout(data: Seq<u8>)
    requires
        payload_fits(data.len() as int),
    ensures
        frame_of(data).len() == MAX_PACKET_LEN,
        frame_of(data)[0] == data.len() + TRAILER_LEN,
        frame_of(data).subrange(1, data.len() + 1int) == data,
        forall|k: int| data.len() + 1 <= k < MAX_PACKET_LEN ==> frame_of(data)[k] == 0u8,
{
    let f = frame_of(data);
    assert(f.subrange(1, data.len() + 1int) =~= data);
}

} // verus!
