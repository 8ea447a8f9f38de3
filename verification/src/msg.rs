//! The consumer-facing message handle: read-only accessors over one inbound
//! envelope, lazy at-most-once payload retrieval in owned-buffer,
//! caller-buffer and scatter/gather forms, the reply gate, and the explicit
//! payload-release step that the owning shell drives on drop.
use vstd::prelude::*;

use crate::data::{
    consumed, payload_bytes, payload_kind, payload_len, reply_capable, AmData, AmDataType, MsgView,
    RawMsg,
};
use crate::send::{send_view, AmProto, Endpoint, SendOp};
use crate::AmError;

verus! {

/// The capacity of the first `i` regions of a scatter/gather list.
pub open spec fn cap_before(iov: Seq<Vec<u8>>, i: int) -> int
    decreases i,
{
    if i <= 0 {
        0
    } else {
        cap_before(iov, i - 1) + iov[i - 1]@.len()
    }
}

/// The capacity of a whole scatter/gather list.
pub open spec fn total_cap(iov: Seq<Vec<u8>>) -> int {
    cap_before(iov, iov.len() as int)
}

/// `x`, clipped from above to `n`.
pub open spec fn clip(x: int, n: int) -> int {
    if x < n {
        x
    } else {
        n
    }
}

/// A region of a scatter/gather destination after a copy of `bytes` that
/// reached it at offset `start`: the bytes that land in it, then its own
/// remainder beyond what was written.
pub open spec fn written_region(bytes: Seq<u8>, start: int, region: Seq<u8>) -> Seq<u8>
    recommends
        0 <= start,
{
    let lo = clip(start, bytes.len() as int);
    let hi = clip(start + region.len(), bytes.len() as int);
    bytes.subrange(lo, hi) + region.skip(hi - lo)
}

/// A consumer's handle on one inbound message. The payload field moves from
/// `Some` to `None` exactly once — consumed by a retrieval, or dropped by
/// `discard_payload` — and a retrieval after that yields an empty result,
/// never an error.
pub struct AmMsg {
    pub msg: RawMsg,
}

impl View for AmMsg {
    type V = MsgView;

    open spec fn view(&self) -> MsgView {
        self.msg@
    }
}

impl AmMsg {
    /// Wrap a dequeued envelope.
    pub fn from_raw(msg: RawMsg) -> (m: AmMsg)
        ensures
            m@ == msg@,
    {
        AmMsg { msg }
    }

    /// The message id the envelope arrived under.
    pub fn id(&self) -> (r: u32)
        ensures
            r == self@.id,
    {
        self.msg.id
    }

    /// The header bytes.
    pub fn header(&self) -> (r: &Vec<u8>)
        ensures
            r@ == self@.header,
    {
        &self.msg.header
    }

    /// Whether an unconsumed payload is still held.
    pub fn contains_data(&self) -> (r: bool)
        ensures
            r == (self@.data is Some),
    {
        self.msg.data.is_some()
    }

    /// The payload's ownership representation, while unconsumed.
    pub fn data_type(&self) -> (r: Option<AmDataType>)
        ensures
            r == payload_kind(self@),
    {
        match &self.msg.data {
            None => None,
            Some(d) => Some(d.data_type()),
        }
    }

    /// The payload bytes, if resident: present for eager and borrowed
    /// payloads, absent for a rendezvous payload (whose bytes must be pulled)
    /// and for a consumed or empty payload.
    pub fn get_data(&self) -> (r: Option<&Vec<u8>>)
        ensures
            r is Some <==> (self@.data is Some && !(payload_kind(self@) == Some(
                AmDataType::Rndv,
            ))),
            r matches Some(v) ==> v@ == payload_bytes(self@),
    {
        match &self.msg.data {
            None => None,
            Some(d) => d.data(),
        }
    }

    /// The unconsumed payload's length; 0 when absent or consumed.
    pub fn data_len(&self) -> (n: usize)
        ensures
            n == payload_len(self@),
    {
        match &self.msg.data {
            None => 0,
            Some(d) => d.len(),
        }
    }

    /// The resident bytes the retrieval of this payload delivers: for a
    /// borrowed or rendezvous descriptor these stand for what the read of
    /// transport memory, or the completed pull, hands over.
    fn payload_ref(&self) -> (r: Option<&Vec<u8>>)
        ensures
            r is Some <==> self@.data is Some,
            r matches Some(v) ==> v@ == payload_bytes(self@),
    {
        match &self.msg.data {
            None => None,
            Some(AmData::Eager(v)) => Some(v),
            Some(AmData::Data(v)) => Some(v),
            Some(AmData::Rndv(v)) => Some(v),
        }
    }

    /// Retrieve the payload into a freshly sized buffer. Consumes the
    /// payload; a later retrieval finds none and returns an empty buffer.
    pub fn recv_data(&mut self) -> (r: Result<Vec<u8>, AmError>)
        ensures
            r matches Ok(v) && v@ == payload_bytes(old(self)@),
            final(self)@ == consumed(old(self)@),
    {
        let r = match self.msg.data.take() {
            None => Vec::new(),
            Some(AmData::Eager(v)) => v,
            Some(AmData::Data(v)) => v,
            Some(AmData::Rndv(v)) => v,
        };
        proof {
            if old(self)@.data is None {
                assert(r@ =~= payload_bytes(old(self)@));
            }
        }
        Ok(r)
    }

    /// Retrieve the payload into one caller-supplied region, filling its
    /// prefix. Fails with `BufferTooSmall`, leaving handle and buffer
    /// untouched, when the region is shorter than the payload; otherwise
    /// consumes the payload and returns its length.
    pub fn recv_data_single(&mut self, buf: &mut Vec<u8>) -> (r: Result<usize, AmError>)
        ensures
            old(buf)@.len() < payload_len(old(self)@) ==> (r == Err::<usize, AmError>(
                AmError::BufferTooSmall,
            ) && final(self)@ == old(self)@ && final(buf)@ == old(buf)@),
            old(buf)@.len() >= payload_len(old(self)@) ==> (r == Ok::<usize, AmError>(
                payload_len(old(self)@) as usize,
            ) && final(self)@ == consumed(old(self)@) && final(buf)@ == payload_bytes(old(self)@)
                + old(buf)@.skip(payload_len(old(self)@) as int)),
    {
        let n = self.data_len();
        if buf.len() < n {
            return Err(AmError::BufferTooSmall);
        }
        let ghost bts = payload_bytes(self@);
        let ghost obuf = buf@;
        let empty_vec: Vec<u8> = Vec::new();
        let bytes: &Vec<u8> = match self.payload_ref() {
            Some(v) => v,
            None => &empty_vec,
        };
        proof {
            if old(self)@.data is None {
                assert(bytes@ =~= bts);
            }
        }
        let mut nb: Vec<u8> = Vec::new();
        let mut j: usize = 0;
        while j < n
            invariant
                bytes@ == bts,
                n == bts.len(),
                j <= n,
                nb@ == bts.subrange(0, j as int),
            decreases n - j,
        {
            nb.push(bytes[j]);
            proof {
                assert(bts.subrange(0, j + 1) =~= bts.subrange(0, j as int).push(bts[j as int]));
            }
            j += 1;
        }
        proof {
            assert(bts.subrange(0, n as int) =~= bts);
        }
        let mut j2: usize = n;
        while j2 < buf.len()
            invariant
                buf@ == obuf,
                n == bts.len(),
                n <= j2 <= obuf.len(),
                nb@ == bts + obuf.subrange(n as int, j2 as int),
            decreases obuf.len() - j2,
        {
            let b = buf[j2];
            nb.push(b);
            proof {
                assert(obuf.subrange(n as int, j2 + 1) =~= obuf.subrange(n as int, j2 as int).push(
                    obuf[j2 as int],
                ));
            }
            j2 += 1;
        }
        proof {
            assert(obuf.subrange(n as int, obuf.len() as int) =~= obuf.skip(n as int));
        }
        *buf = nb;
        self.msg.data = None;
        Ok(n)
    }

    /// Retrieve the payload into a scatter/gather list of caller-supplied
    /// regions, filling them in order. Fails with `BufferTooSmall`, leaving
    /// handle and regions untouched, when the regions together are shorter
    /// than the payload; otherwise consumes the payload, writes each region
    /// as `written_region` states, and returns the payload length.
    pub fn recv_data_vectored(&mut self, iov: &mut Vec<Vec<u8>>) -> (r: Result<usize, AmError>)
        ensures
            total_cap(old(iov)@) < payload_len(old(self)@) ==> (r == Err::<usize, AmError>(
                AmError::BufferTooSmall,
            ) && final(self)@ == old(self)@ && final(iov)@ == old(iov)@),
            total_cap(old(iov)@) >= payload_len(old(self)@) ==> (r == Ok::<usize, AmError>(
                payload_len(old(self)@) as usize,
            ) && final(self)@ == consumed(old(self)@) && final(iov)@.len() == old(iov)@.len()
                && (forall|i: int|
                0 <= i < old(iov)@.len() ==> final(iov)@[i]@ == written_region(
                    payload_bytes(old(self)@),
                    cap_before(old(iov)@, i),
                    old(iov)@[i]@,
                ))),
    {
        let n = self.data_len();
        let ghost bts = payload_bytes(self@);
        let ghost regs = iov@;
        let empty_vec: Vec<u8> = Vec::new();
        let bytes: &Vec<u8> = match self.payload_ref() {
            Some(v) => v,
            None => &empty_vec,
        };
        proof {
            if old(self)@.data is None {
                assert(bytes@ =~= bts);
            }
        }
        let mut out: Vec<Vec<u8>> = Vec::new();
        let mut off: usize = 0;
        let mut i: usize = 0;
        while i < iov.len()
            invariant
                iov@ == regs,
                bytes@ == bts,
                n == bts.len(),
                i <= regs.len(),
                out@.len() == i,
                off == clip(cap_before(regs, i as int), n as int),
                forall|k: int|
                    0 <= k < i ==> out@[k]@ == written_region(bts, cap_before(regs, k), regs[k]@),
            decreases regs.len() - i,
        {
            let region: &Vec<u8> = &iov[i];
            let rlen = region.len();
            let cnt = if n - off < rlen {
                n - off
            } else {
                rlen
            };
            let mut nr: Vec<u8> = Vec::new();
            let mut j: usize = 0;
            while j < cnt
                invariant
                    bytes@ == bts,
                    n == bts.len(),
                    off + cnt <= n,
                    j <= cnt,
                    nr@ == bts.subrange(off as int, off + j),
                decreases cnt - j,
            {
                nr.push(bytes[off + j]);
                proof {
                    assert(bts.subrange(off as int, off + j + 1) =~= bts.subrange(
                        off as int,
                        off + j,
                    ).push(bts[off + j]));
                }
                j += 1;
            }
            let mut j2: usize = cnt;
            while j2 < rlen
                invariant
                    iov@ == regs,
                    i < regs.len(),
                    region == regs[i as int],
                    rlen == region@.len(),
                    cnt <= j2 <= rlen,
                    nr@ == bts.subrange(off as int, off + cnt) + region@.subrange(
                        cnt as int,
                        j2 as int,
                    ),
                decreases rlen - j2,
            {
                let b = region[j2];
                nr.push(b);
                proof {
                    assert(region@.subrange(cnt as int, j2 + 1) =~= region@.subrange(
                        cnt as int,
                        j2 as int,
                    ).push(region@[j2 as int]));
                }
                j2 += 1;
            }
            proof {
                let start = cap_before(regs, i as int);
                assert(cap_before(regs, i + 1) == start + rlen);
                assert(clip(start, n as int) == off);
                assert(clip(start + rlen, n as int) == off + cnt);
                assert(region@.skip(cnt as int) =~= region@.subrange(cnt as int, rlen as int));
                assert(nr@ == written_region(bts, start, regs[i as int]@));
            }
            out.push(nr);
            off = off + cnt;
            i += 1;
        }
        if off < n {
            proof {
                assert(total_cap(regs) < n);
            }
            return Err(AmError::BufferTooSmall);
        }
        proof {
            assert(off == n);
            assert(total_cap(regs) >= n);
        }
        *iov = out;
        self.msg.data = None;
        Ok(n)
    }

    /// Whether the envelope grants reply capability: its attribute word
    /// carries the reply bit and its reply target handle is non-null.
    pub fn need_reply(&self) -> (r: bool)
        ensures
            r == reply_capable(self@),
    {
        self.msg.attr & crate::data::ATTR_FIELD_REPLY_EP != 0 && self.msg.reply_ep != 0
    }

    /// Build a reply with one contiguous payload, towards the envelope's
    /// reply target. Rejected with `PreconditionViolated` — never a panic —
    /// exactly when the envelope lacks reply capability.
    pub fn reply(
        &self,
        id: u32,
        header: Vec<u8>,
        data: Vec<u8>,
        need_reply: bool,
        proto: Option<AmProto>,
    ) -> (r: Result<SendOp, AmError>)
        ensures
            !reply_capable(self@) <==> r == Err::<SendOp, AmError>(AmError::PreconditionViolated),
            reply_capable(self@) ==> (r matches Ok(op) && op@ == send_view(
                self@.reply_ep,
                id,
                header@,
                data@,
                need_reply,
                proto,
            )),
    {
        if !self.need_reply() {
            Err(AmError::PreconditionViolated)
        } else {
            let ep = Endpoint { handle: self.msg.reply_ep };
            Ok(ep.am_send(id, header, data, need_reply, proto))
        }
    }

    /// Build a reply with a scatter/gather payload, towards the envelope's
    /// reply target. Gated exactly as `reply`.
    pub fn reply_vectorized(
        &self,
        id: u32,
        header: Vec<u8>,
        data: Vec<Vec<u8>>,
        need_reply: bool,
        proto: Option<AmProto>,
    ) -> (r: Result<SendOp, AmError>)
        ensures
            !reply_capable(self@) <==> r == Err::<SendOp, AmError>(AmError::PreconditionViolated),
            reply_capable(self@) ==> (r matches Ok(op) && op@ == send_view(
                self@.reply_ep,
                id,
                header@,
                crate::send::concat_regions(data@),
                need_reply,
                proto,
            )),
    {
        if !self.need_reply() {
            Err(AmError::PreconditionViolated)
        } else {
            let ep = Endpoint { handle: self.msg.reply_ep };
            Ok(ep.am_send_vectorized(id, header, data, need_reply, proto))
        }
    }

    /// Whether an unconsumed transport descriptor is still held, so that the
    /// owning shell must release it back to the transport before the handle
    /// goes away. Eager and already-consumed payloads carry no obligation.
    pub fn needs_release(&self) -> (r: bool)
        ensures
            r == (payload_kind(self@) == Some(AmDataType::Data) || payload_kind(self@) == Some(
                AmDataType::Rndv,
            )),
    {
        match &self.msg.data {
            Some(AmData::Data(_)) => true,
            Some(AmData::Rndv(_)) => true,
            _ => false,
        }
    }

    /// Drop the payload without consuming it: the second way the payload
    /// field moves from `Some` to `None`. The owning shell calls this once
    /// the transport descriptor, if `needs_release` reported one, has been
    /// released.
    pub fn discard_payload(&mut self)
        ensures
            final(self)@ == consumed(old(self)@),
    {
        self.msg.data = None;
    }
}

/// A retrieval consumes the payload: afterwards no payload is held, a second
/// retrieval's result is the empty byte string — a success, never an error —
/// and discarding again changes nothing.
pub proof fn lemma_retrieval_consumes(m: MsgView)
    ensures
        consumed(m).data is None,
        payload_bytes(consumed(m)) == Seq::<u8>::empty(),
        payload_len(consumed(m)) == 0,
        consumed(consumed(m)) == consumed(m),
{
}

} // verus!
