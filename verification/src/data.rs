//! Payload representations of an inbound active message and the rule that
//! classifies an arrival into one of them from its attribute word.
use vstd::prelude::*;

verus! {

/// Attribute bit: the payload stays in transport-owned memory behind a
/// descriptor that is valid until explicitly released.
pub const ATTR_FLAG_DATA: u64 = 0x10000;

/// Attribute bit: the payload is not yet resident; only a rendezvous
/// descriptor is known and the bytes must be pulled explicitly.
pub const ATTR_FLAG_RNDV: u64 = 0x20000;

/// Attribute bit: the arrival carries a reply endpoint handle.
pub const ATTR_FIELD_REPLY_EP: u64 = 0x1;

/// How a received payload's bytes are owned.
#[derive(Clone, Copy, Debug, PartialEq, Eq, Structural)]
pub enum AmDataType {
    /// Bytes were copied into process-owned storage at arrival time.
    Eager,
    /// Bytes reside in transport-owned memory until released.
    Data,
    /// Bytes are not yet resident; a pull is needed to materialize them.
    Rndv,
}

/// A received payload together with its ownership representation.
///
/// For the `Data` and `Rndv` variants the held bytes stand for the contents
/// of the transport-side descriptor: what a read of the borrowed region, or
/// the completed pull, delivers. Both variants carry a release obligation;
/// `Eager` does not.
pub enum AmData {
    Eager(Vec<u8>),
    Data(Vec<u8>),
    Rndv(Vec<u8>),
}

impl View for AmData {
    type V = (AmDataType, Seq<u8>);

    open spec fn view(&self) -> (AmDataType, Seq<u8>) {
        match self {
            AmData::Eager(v) => (AmDataType::Eager, v@),
            AmData::Data(v) => (AmDataType::Data, v@),
            AmData::Rndv(v) => (AmDataType::Rndv, v@),
        }
    }
}

/// The payload view of an optional payload.
pub open spec fn data_view(d: Option<AmData>) -> Option<(AmDataType, Seq<u8>)> {
    match d {
        Some(x) => Some(x@),
        None => None,
    }
}

/// Classification of an arrival, decided purely from the attribute word:
/// an empty payload is no payload; the rendezvous flag selects `Rndv` and
/// takes precedence; the descriptor flag selects `Data`; otherwise the bytes
/// were copied eagerly.
pub open spec fn classify_arrival(bytes: Seq<u8>, attr: u64) -> Option<(AmDataType, Seq<u8>)> {
    if bytes.len() == 0 {
        None
    } else if attr & ATTR_FLAG_RNDV != 0 {
        Some((AmDataType::Rndv, bytes))
    } else if attr & ATTR_FLAG_DATA != 0 {
        Some((AmDataType::Data, bytes))
    } else {
        Some((AmDataType::Eager, bytes))
    }
}

impl AmData {
    /// Classify an arrival's payload bytes by the attribute word.
    pub fn from_raw(data: Vec<u8>, attr: u64) -> (r: Option<AmData>)
        ensures
            data_view(r) == classify_arrival(data@, attr),
    {
        if data.len() == 0 {
            None
        } else if attr & ATTR_FLAG_RNDV != 0 {
            Some(AmData::Rndv(data))
        } else if attr & ATTR_FLAG_DATA != 0 {
            Some(AmData::Data(data))
        } else {
            Some(AmData::Eager(data))
        }
    }

    /// The ownership representation of this payload.
    pub fn data_type(&self) -> (t: AmDataType)
        ensures
            t == self@.0,
    {
        match self {
            AmData::Eager(_) => AmDataType::Eager,
            AmData::Data(_) => AmDataType::Data,
            AmData::Rndv(_) => AmDataType::Rndv,
        }
    }

    /// The readable bytes: resident for `Eager` and `Data`, none for `Rndv`
    /// (a rendezvous payload is not readable before a pull).
    pub fn data(&self) -> (r: Option<&Vec<u8>>)
        ensures
            self@.0 is Rndv <==> r is None,
            r matches Some(v) ==> v@ == self@.1,
    {
        match self {
            AmData::Eager(v) => Some(v),
            AmData::Data(v) => Some(v),
            AmData::Rndv(_) => None,
        }
    }

    /// The payload length; for `Rndv` the length the descriptor announces.
    pub fn len(&self) -> (n: usize)
        ensures
            n == self@.1.len(),
    {
        match self {
            AmData::Eager(v) => v.len(),
            AmData::Data(v) => v.len(),
            AmData::Rndv(v) => v.len(),
        }
    }
}

/// One inbound message, immutable once constructed: id, header bytes,
/// optional payload, reply target handle (0 when absent) and the raw
/// attribute word the transport delivered with it.
pub struct RawMsg {
    pub id: u32,
    pub header: Vec<u8>,
    pub data: Option<AmData>,
    pub reply_ep: u64,
    pub attr: u64,
}

/// Mathematical model of one inbound message.
pub struct MsgView {
    pub id: u32,
    pub header: Seq<u8>,
    pub data: Option<(AmDataType, Seq<u8>)>,
    pub reply_ep: u64,
    pub attr: u64,
}

impl View for RawMsg {
    type V = MsgView;

    open spec fn view(&self) -> MsgView {
        MsgView {
            id: self.id,
            header: self.header@,
            data: data_view(self.data),
            reply_ep: self.reply_ep,
            attr: self.attr,
        }
    }
}

/// The model of the envelope that an arrival with these raw values produces.
pub open spec fn arrival_view(
    id: u32,
    header: Seq<u8>,
    bytes: Seq<u8>,
    reply_ep: u64,
    attr: u64,
) -> MsgView {
    MsgView { id, header, data: classify_arrival(bytes, attr), reply_ep, attr }
}

/// The bytes a consumer retrieves from an envelope: the payload's bytes, or
/// none when the payload is absent or already consumed.
pub open spec fn payload_bytes(m: MsgView) -> Seq<u8> {
    match m.data {
        None => Seq::empty(),
        Some((_, b)) => b,
    }
}

/// The payload length a consumer observes (0 when absent).
pub open spec fn payload_len(m: MsgView) -> nat {
    payload_bytes(m).len()
}

/// The payload's ownership representation, when present.
pub open spec fn payload_kind(m: MsgView) -> Option<AmDataType> {
    match m.data {
        None => None,
        Some((k, _)) => Some(k),
    }
}

/// Whether the envelope grants reply capability: the reply attribute bit is
/// set and the reply target handle is non-null.
pub open spec fn reply_capable(m: MsgView) -> bool {
    m.attr & ATTR_FIELD_REPLY_EP != 0 && m.reply_ep != 0
}

/// The envelope after its payload has been consumed or released.
pub open spec fn consumed(m: MsgView) -> MsgView {
    MsgView { data: None, ..m }
}

impl RawMsg {
    /// Build the envelope for one arrival, classifying the payload from the
    /// attribute word.
    pub fn from_raw(id: u32, header: Vec<u8>, data: Vec<u8>, reply_ep: u64, attr: u64) -> (m:
        RawMsg)
        ensures
            m@ == arrival_view(id, header@, data@, reply_ep, attr),
    {
        RawMsg { id, header, data: AmData::from_raw(data, attr), reply_ep, attr }
    }
}

/// Round trip at the classification boundary: whatever bytes a sender hands
/// the transport and whatever attribute word the transport chooses for the
/// arrival, the receiver observes the sent length, retrieves exactly the sent
/// bytes, and sees the sent header unchanged.
pub proof fn lemma_round_trip(id: u32, header: Seq<u8>, bytes: Seq<u8>, reply_ep: u64, attr: u64)
    ensures
        payload_len(arrival_view(id, header, bytes, reply_ep, attr)) == bytes.len(),
        payload_bytes(arrival_view(id, header, bytes, reply_ep, attr)) == bytes,
        arrival_view(id, header, bytes, reply_ep, attr).header == header,
{
    if bytes.len() == 0 {
        assert(bytes =~= Seq::<u8>::empty());
    }
}

} // verus!
