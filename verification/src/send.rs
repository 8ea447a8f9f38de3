//! Outbound send path: building the native send operation — target handle,
//! header, payload layout and flag word — from plain values. Submission of
//! the built operation and the wait for its completion are the transport
//! shell's work; the completion status is judged by `crate::bridge`.
use vstd::prelude::*;

verus! {

/// Send flag: the receiver is handed a reply endpoint.
pub const SEND_FLAG_REPLY: u64 = 0x1;

/// Send flag: ask the transport to favor immediate inline transmission.
pub const SEND_FLAG_EAGER: u64 = 0x2;

/// Send flag: ask the transport to negotiate a zero-copy rendezvous path.
pub const SEND_FLAG_RNDV: u64 = 0x4;

/// Protocol hint for an outbound send. Both are best-effort hints, not
/// guarantees.
#[derive(Clone, Copy, Debug, PartialEq, Eq, Structural)]
pub enum AmProto {
    /// Favor inline transmission. Some underlying transports are reported to
    /// corrupt payloads under this hint; leave it off unless the transport is
    /// known to be safe.
    Eager,
    /// Negotiate a zero-copy path suited to large payloads.
    Rndv,
}

/// One outbound operation, ready for submission: where it goes, under which
/// message id, with which header and payload bytes, and the flag word that
/// carries the protocol hint and the reply expectation.
pub struct SendOp {
    pub target: u64,
    pub id: u32,
    pub header: Vec<u8>,
    pub payload: Vec<u8>,
    pub flags: u64,
}

/// Mathematical model of one outbound operation.
pub struct SendOpView {
    pub target: u64,
    pub id: u32,
    pub header: Seq<u8>,
    pub payload: Seq<u8>,
    pub flags: u64,
}

impl View for SendOp {
    type V = SendOpView;

    open spec fn view(&self) -> SendOpView {
        SendOpView {
            target: self.target,
            id: self.id,
            header: self.header@,
            payload: self.payload@,
            flags: self.flags,
        }
    }
}

/// The flag word of a send with the given reply expectation and hint.
pub open spec fn send_flags(need_reply: bool, proto: Option<AmProto>) -> u64 {
    (if need_reply {
        SEND_FLAG_REPLY
    } else {
        0
    }) | (match proto {
        Some(AmProto::Eager) => SEND_FLAG_EAGER,
        Some(AmProto::Rndv) => SEND_FLAG_RNDV,
        None => 0,
    })
}

/// The concatenation of a scatter/gather list's regions, in order.
pub open spec fn concat_regions(regions: Seq<Vec<u8>>) -> Seq<u8>
    decreases regions.len(),
{
    if regions.len() == 0 {
        Seq::empty()
    } else {
        concat_regions(regions.drop_last()) + regions.last()@
    }
}

/// The model of the operation a send with these arguments builds.
pub open spec fn send_view(
    target: u64,
    id: u32,
    header: Seq<u8>,
    payload: Seq<u8>,
    need_reply: bool,
    proto: Option<AmProto>,
) -> SendOpView {
    SendOpView { target, id, header, payload, flags: send_flags(need_reply, proto) }
}

/// Build one outbound operation towards a raw endpoint handle: the payload is
/// the scatter/gather regions laid out back to back, and the flag word holds
/// exactly the requested hint and reply expectation.
pub fn am_send(
    endpoint: u64,
    id: u32,
    header: Vec<u8>,
    data: Vec<Vec<u8>>,
    need_reply: bool,
    proto: Option<AmProto>,
) -> (op: SendOp)
    ensures
        op@ == send_view(endpoint, id, header@, concat_regions(data@), need_reply, proto),
{
    let reply_part: u64 = if need_reply {
        SEND_FLAG_REPLY
    } else {
        0
    };
    let proto_part: u64 = match proto {
        Some(AmProto::Eager) => SEND_FLAG_EAGER,
        Some(AmProto::Rndv) => SEND_FLAG_RNDV,
        None => 0,
    };
    let flags: u64 = reply_part | proto_part;
    assert(flags == send_flags(need_reply, proto));
    let mut payload: Vec<u8> = Vec::new();
    let mut i: usize = 0;
    while i < data.len()
        invariant
            i <= data.len(),
            payload@ == concat_regions(data@.take(i as int)),
        decreases data.len() - i,
    {
        let region = &data[i];
        let mut j: usize = 0;
        while j < region.len()
            invariant
                j <= region.len(),
                i < data.len(),
                region == data[i as int],
                payload@ == concat_regions(data@.take(i as int)) + region@.take(j as int),
            decreases region.len() - j,
        {
            payload.push(region[j]);
            j += 1;
        }
        proof {
            assert(data@.take(i + 1).drop_last() =~= data@.take(i as int));
            assert(region@.take(region@.len() as int) =~= region@);
            assert(payload@ == concat_regions(data@.take(i + 1)));
        }
        i += 1;
    }
    proof {
        assert(data@.take(data@.len() as int) =~= data@);
    }
    SendOp { target: endpoint, id, header, payload, flags }
}

/// Round trip, for every payload kind and every protocol hint: whatever
/// operation a send builds, and whatever attribute word the transport picks
/// for its arrival — inline copy, borrowed descriptor or rendezvous — the
/// receiver's envelope reports the sent payload's length, retrieval delivers
/// the sent bytes byte for byte, and the header arrives unchanged.
pub proof fn lemma_send_recv_round_trip(op: SendOpView, reply_ep: u64, attr: u64)
    ensures
        crate::data::payload_len(crate::data::arrival_view(op.id, op.header, op.payload, reply_ep, attr))
            == op.payload.len(),
        crate::data::payload_bytes(crate::data::arrival_view(op.id, op.header, op.payload, reply_ep, attr))
            == op.payload,
        crate::data::arrival_view(op.id, op.header, op.payload, reply_ep, attr).header == op.header,
{
    crate::data::lemma_round_trip(op.id, op.header, op.payload, reply_ep, attr);
}

/// A send-capable peer, identified by its raw endpoint handle.
pub struct Endpoint {
    pub handle: u64,
}

impl Endpoint {
    /// Build a send of one contiguous payload to this endpoint.
    pub fn am_send(
        &self,
        id: u32,
        header: Vec<u8>,
        data: Vec<u8>,
        need_reply: bool,
        proto: Option<AmProto>,
    ) -> (op: SendOp)
        ensures
            op@ == send_view(self.handle, id, header@, data@, need_reply, proto),
    {
        let ghost data_s = data@;
        let mut regions: Vec<Vec<u8>> = Vec::new();
        regions.push(data);
        proof {
            assert(regions@.len() == 1);
            assert(regions@.last()@ == data_s);
            assert(regions@.drop_last() =~= Seq::<Vec<u8>>::empty());
            assert(concat_regions(regions@.drop_last()) == Seq::<u8>::empty());
            assert(concat_regions(regions@) == Seq::<u8>::empty() + data_s);
            assert(Seq::<u8>::empty() + data_s =~= data_s);
        }
        am_send(self.handle, id, header, regions, need_reply, proto)
    }

    /// Build a send of a scatter/gather payload to this endpoint.
    pub fn am_send_vectorized(
        &self,
        id: u32,
        header: Vec<u8>,
        data: Vec<Vec<u8>>,
        need_reply: bool,
        proto: Option<AmProto>,
    ) -> (op: SendOp)
        ensures
            op@ == send_view(self.handle, id, header@, concat_regions(data@), need_reply, proto),
    {
        am_send(self.handle, id, header, data, need_reply, proto)
    }
}

} // verus!
