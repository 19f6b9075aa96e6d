//! Frame codec: a one-byte tag followed by an opaque payload.
use vstd::prelude::*;

verus! {

/// Tag of a frame that carries a raw MIDI event.
pub const DATA_TAG: u8 = 0x10;

/// Size of the receive buffer: a datagram longer than this is cut short by
/// the transport, so a data frame carries at most `RECV_BUFFER_LEN - 1`
/// payload bytes.
pub const RECV_BUFFER_LEN: usize = 128;

/// The frame whose tag is `tag` and whose payload is `payload`.
pub open spec fn encoded(tag: u8, payload: Seq<u8>) -> Seq<u8> {
    seq![tag] + payload
}

/// How a datagram splits into tag and payload; `None` for an empty one.
pub open spec fn decoded(bytes: Seq<u8>) -> Option<(u8, Seq<u8>)> {
    if bytes.len() == 0 {
        None
    } else {
        Some((bytes[0], bytes.drop_first()))
    }
}

/// Whether a datagram is a data frame.
pub open spec fn is_data_frame(bytes: Seq<u8>) -> bool {
    bytes.len() > 0 && bytes[0] == DATA_TAG
}

/// What the relay hands to the local device for a received datagram: the
/// payload of a data frame, and nothing for any other datagram.
pub open spec fn data_payload(bytes: Seq<u8>) -> Option<Seq<u8>> {
    if is_data_frame(bytes) {
        Some(bytes.drop_first())
    } else {
        None
    }
}

/// The bytes after the tag; empty for an empty datagram.
pub open spec fn payload_of(bytes: Seq<u8>) -> Seq<u8> {
    if bytes.len() == 0 {
        Seq::empty()
    } else {
        bytes.drop_first()
    }
}

/// A decoded frame.
pub struct Frame {
    pub tag: u8,
    pub payload: Vec<u8>,
}

impl View for Frame {
    type V = (u8, Seq<u8>);

    open spec fn view(&self) -> (u8, Seq<u8>) {
        (self.tag, self.payload@)
    }
}

impl Frame {
    /// Whether this frame carries a MIDI event.
    pub fn is_data(&self) -> (r: bool)
        ensures
            r == (self.tag == DATA_TAG),
    {
        self.tag == DATA_TAG
    }
}

/// Prepends `tag` to `payload`. There is no length field: the datagram's
/// boundary ends the frame.
pub fn encode(tag: u8, payload: &[u8]) -> (r: Vec<u8>)
    ensures
        r@ == encoded(tag, payload@),
{
    let mut r: Vec<u8> = Vec::new();
    r.push(tag);
    let mut i: usize = 0;
    while i < payload.len()
        invariant
            i <= payload@.len(),
            r@ == encoded(tag, payload@.subrange(0, i as int)),
        decreases payload@.len() - i,
    {
        r.push(payload[i]);
        i = i + 1;
        assert(payload@.subrange(0, i as int) == payload@.subrange(0, i - 1 as int).push(payload@[i - 1]));
    }
    assert(payload@.subrange(0, i as int) == payload@);
    r
}

/// Splits a received datagram into its tag and payload. Every non-empty
/// datagram is a frame, whatever it holds; an empty one gives `None`.
pub fn decode(bytes: &[u8]) -> (r: Option<Frame>)
    ensures
        r matches Some(f) ==> decoded(bytes@) == Some(f@),
        r is None <==> decoded(bytes@) is None,
{
    if bytes.len() == 0 {
        return None;
    }
    let mut payload: Vec<u8> = Vec::with_capacity(bytes.len() - 1);
    let mut i: usize = 1;
    while i < bytes.len()
        invariant
            1 <= i <= bytes@.len(),
            payload@ == bytes@.subrange(1, i as int),
        decreases bytes@.len() - i,
    {
        payload.push(bytes[i]);
        i = i + 1;
        assert(bytes@.subrange(1, i as int) == bytes@.subrange(1, i - 1 as int).push(bytes@[i - 1]));
    }
    assert(bytes@.drop_first() == bytes@.subrange(1, bytes@.len() as int));
    Some(Frame { tag: bytes[0], payload })
}

/// A data frame decodes to the payload it was encoded from.
pub proof fn lemma_data_frame_round_trip(payload: Seq<u8>)
    requires
        0 < payload.len() < RECV_BUFFER_LEN,
    ensures
        decoded(encoded(DATA_TAG, payload)) == Some((DATA_TAG, payload)),
{
    assert(encoded(DATA_TAG, payload).drop_first() == payload);
}

/// A datagram whose first byte is not the data tag decodes to a frame of
/// another tag, and nothing of it goes to the local device.
pub proof fn lemma_foreign_tag_is_not_data(bytes: Seq<u8>)
    requires
        bytes.len() > 0,
        bytes[0] != DATA_TAG,
    ensures
        decoded(bytes) matches Some((tag, _)) && tag != DATA_TAG,
        !is_data_frame(bytes),
        data_payload(bytes) is None,
{
}

} // verus!
