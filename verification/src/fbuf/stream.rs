//! The bytes a display client has sent, cut into messages.

use vstd::prelude::*;

use super::rfb::CLIENT_CUT_TEXT;
use crate::bytes::{be32, get_be32, sub_bytes};

verus! {

/// The most text of one ClientCutText that is kept.
pub const CUT_TEXT_CAP: usize = 1024 * 1024;

/// Bytes of a ClientCutText message before its text.
pub const CUT_TEXT_HEADER: usize = 8;

/// Whether `s` begins with a ClientCutText whose text is longer than what is
/// kept of it.
pub open spec fn starts_long_cut(s: Seq<u8>) -> bool {
    s.len() >= CUT_TEXT_HEADER && s[0] == CLIENT_CUT_TEXT && be32(s, 4) > CUT_TEXT_CAP
}

/// What has come from a client and has not been taken: the bytes, and whether
/// the client has closed its end.
pub ghost struct Received {
    pub bytes: Seq<u8>,
    pub ended: bool,
}

/// Bytes from a client that wait to be taken.
///
/// The text of a ClientCutText past [`CUT_TEXT_CAP`] is counted and dropped
/// as it comes, so a client cannot make the server hold all of it.
pub struct ClientStream {
    /// The bytes of the message at the front.
    buf: Vec<u8>,
    /// How many bytes of the front message's text were dropped.
    dropped: u32,
    /// What came behind a message whose text was dropped.
    rest: Vec<u8>,
    /// Whether messages are being read, and so text may be dropped.
    framed: bool,
    ended: bool,
    seen: Ghost<Seq<u8>>,
}

impl View for ClientStream {
    type V = Received;

    closed spec fn view(&self) -> Received {
        Received { bytes: self.buf@ + self.seen@ + self.rest@, ended: self.ended }
    }
}

impl ClientStream {
    /// Text is dropped only behind a full front message, and what follows it
    /// is kept only once all of its text has come.
    pub closed spec fn wf(&self) -> bool {
        &&& self.seen@.len() == self.dropped
        &&& self.dropped > 0 ==> {
            &&& self.framed
            &&& starts_long_cut(self.buf@)
            &&& self.buf@.len() == CUT_TEXT_HEADER + CUT_TEXT_CAP
            &&& self.dropped <= be32(self.buf@, 4) - CUT_TEXT_CAP
            &&& self.rest@.len() > 0 ==> self.dropped == be32(self.buf@, 4) - CUT_TEXT_CAP
        }
        &&& self.dropped == 0 ==> self.rest@.len() == 0
        &&& self.framed && starts_long_cut(self.buf@) ==> self.buf@.len() <= CUT_TEXT_HEADER
            + CUT_TEXT_CAP
    }

    /// Whether messages are being read.
    pub closed spec fn is_framed(&self) -> bool {
        self.framed
    }

    /// A stream that nothing has come from. Until
    /// [`ClientStream::start_messages`] its bytes are only taken by count.
    pub fn new() -> (r: Self)
        ensures
            r.wf(),
            r@.bytes == Seq::<u8>::empty(),
            !r@.ended,
            !r.is_framed(),
    {
        let r = ClientStream {
            buf: Vec::new(),
            dropped: 0,
            rest: Vec::new(),
            framed: false,
            ended: false,
            seen: Ghost(Seq::empty()),
        };
        assert(r@.bytes =~= Seq::<u8>::empty());
        r
    }

    fn from_parts(framed: bool, ended: bool) -> (r: Self)
        ensures
            r.wf(),
            r@.bytes == Seq::<u8>::empty(),
            r@.ended == ended,
            r.is_framed() == framed,
    {
        let r = ClientStream {
            buf: Vec::new(),
            dropped: 0,
            rest: Vec::new(),
            framed,
            ended,
            seen: Ghost(Seq::empty()),
        };
        assert(r@.bytes =~= Seq::<u8>::empty());
        r
    }

    /// The client closed its end.
    pub fn end(&mut self)
        requires
            old(self).wf(),
        ensures
            final(self).wf(),
            final(self)@ == (Received { ended: true, ..old(self)@ }),
            final(self).is_framed() == old(self).is_framed(),
    {
        self.ended = true;
    }

    pub fn is_ended(&self) -> (r: bool)
        ensures
            r == self@.ended,
    {
        self.ended
    }

    /// Whether nothing waits to be taken.
    pub fn is_empty(&self) -> (r: bool)
        requires
            self.wf(),
        ensures
            r == (self@.bytes.len() == 0),
    {
        self.buf.len() == 0
    }

    fn push_byte(&mut self, b: u8)
        requires
            old(self).wf(),
        ensures
            final(self).wf(),
            final(self)@ == (Received { bytes: old(self)@.bytes.push(b), ..old(self)@ }),
            final(self).is_framed() == old(self).is_framed(),
    {
        let long = self.framed && self.buf.len() >= CUT_TEXT_HEADER && self.buf[0]
            == CLIENT_CUT_TEXT && get_be32(self.buf.as_slice(), 4) > CUT_TEXT_CAP as u32;
        if long && self.buf.len() == CUT_TEXT_HEADER + CUT_TEXT_CAP {
            let excess: u32 = get_be32(self.buf.as_slice(), 4) - CUT_TEXT_CAP as u32;
            if self.dropped < excess {
                self.seen = Ghost(self.seen@.push(b));
                self.dropped = self.dropped + 1;
            } else {
                self.rest.push(b);
            }
        } else {
            let ghost before = self.buf@;
            self.buf.push(b);
            proof {
                if before.len() >= CUT_TEXT_HEADER {
                    assert(be32(self.buf@, 4) == be32(before, 4));
                }
            }
        }
        assert(self@.bytes =~= old(self)@.bytes.push(b));
    }

    /// Bytes came from the client.
    pub fn feed(&mut self, data: &[u8])
        requires
            old(self).wf(),
        ensures
            final(self).wf(),
            final(self)@ == (Received { bytes: old(self)@.bytes + data@, ..old(self)@ }),
            final(self).is_framed() == old(self).is_framed(),
    {
        let mut i: usize = 0;
        assert(data@.take(0) =~= Seq::<u8>::empty());
        assert(self@.bytes =~= self@.bytes + data@.take(0));
        while i < data.len()
            invariant
                i <= data@.len(),
                self.wf(),
                self@.ended == old(self)@.ended,
                self.is_framed() == old(self).is_framed(),
                self@.bytes == old(self)@.bytes + data@.take(i as int),
            decreases data@.len() - i,
        {
            self.push_byte(data[i]);
            i += 1;
            assert(old(self)@.bytes + data@.take(i as int) =~= (old(self)@.bytes + data@.take(
                i - 1,
            )).push(data@[i - 1]));
        }
        assert(data@.take(i as int) =~= data@);
    }

    /// From now on the bytes are messages.
    pub fn start_messages(&mut self)
        requires
            old(self).wf(),
        ensures
            final(self).wf(),
            final(self)@ == old(self)@,
            final(self).is_framed(),
    {
        if self.framed {
            return;
        }
        let mut fresh = ClientStream::from_parts(true, self.ended);
        fresh.feed(self.buf.as_slice());
        proof {
            assert(self.seen@ =~= Seq::<u8>::empty());
            assert(self@.bytes =~= self.buf@);
            assert(fresh@.bytes =~= self@.bytes);
        }
        *self = fresh;
    }

    /// Take the first `n` bytes, once that many have come.
    pub fn take(&mut self, n: usize) -> (r: Option<Vec<u8>>)
        requires
            old(self).wf(),
            !old(self).is_framed(),
        ensures
            final(self).wf(),
            r.is_some() <==> old(self)@.bytes.len() >= n,
            r matches Some(v) ==> v@ == old(self)@.bytes.take(n as int) && final(self)@ == (
            Received { bytes: old(self)@.bytes.skip(n as int), ..old(self)@ }),
            r is None ==> final(self)@ == old(self)@,
            final(self).is_framed() == old(self).is_framed(),
    {
        proof {
                        assert(self.seen@ =~= Seq::<u8>::empty());
            assert(self@.bytes =~= self.buf@);
        }
        if self.buf.len() < n {
            return None;
        }
        let v = sub_bytes(self.buf.as_slice(), 0, n);
        let mut fresh = ClientStream::from_parts(false, self.ended);
        let tail = sub_bytes(self.buf.as_slice(), n, self.buf.len());
        fresh.feed(tail.as_slice());
        proof {
            assert(v@ =~= self@.bytes.take(n as int));
            assert(fresh@.bytes =~= self@.bytes.skip(n as int));
        }
        *self = fresh;
        Some(v)
    }

    /// The bytes at the front that are held, and how many of the front
    /// message's were dropped behind them.
    pub(crate) fn front(&self) -> (r: (&Vec<u8>, u32))
        requires
            self.wf(),
            self.is_framed(),
        ensures
            r.0@ == self@.bytes.take(r.0@.len() as int),
            r.0@.len() <= self@.bytes.len(),
            r.1 == 0 ==> r.0@ == self@.bytes,
            r.1 == 0 && starts_long_cut(r.0@) ==> r.0@.len() <= CUT_TEXT_HEADER + CUT_TEXT_CAP,
            r.1 > 0 ==> {
                &&& starts_long_cut(r.0@)
                &&& r.0@.len() == CUT_TEXT_HEADER + CUT_TEXT_CAP
                &&& r.1 <= be32(r.0@, 4) - CUT_TEXT_CAP
                &&& r.1 < be32(r.0@, 4) - CUT_TEXT_CAP ==> self@.bytes.len() == r.0@.len() + r.1
                &&& self@.bytes.len() >= r.0@.len() + r.1
            },
    {
        proof {
                        assert(self@.bytes.take(self.buf@.len() as int) =~= self.buf@);
            if self.dropped == 0 {
                assert(self@.bytes =~= self.buf@);
            }
        }
        (&self.buf, self.dropped)
    }

    /// Drop the first `n` bytes: all of the front message, or bytes that are
    /// held.
    pub(crate) fn advance(&mut self, n: u64)
        requires
            old(self).wf(),
            old(self).is_framed(),
            n <= old(self)@.bytes.len(),
            starts_long_cut(old(self)@.bytes) && old(self)@.bytes.len() > CUT_TEXT_HEADER
                + CUT_TEXT_CAP ==> n == CUT_TEXT_HEADER + be32(old(self)@.bytes, 4),
        ensures
            final(self).wf(),
            final(self)@ == (Received { bytes: old(self)@.bytes.skip(n as int), ..old(self)@ }),
            final(self).is_framed(),
    {
        let ghost o = *self;
        proof {
                        assert(self@.bytes.take(self.buf@.len() as int) =~= self.buf@);
            if self.buf@.len() >= CUT_TEXT_HEADER {
                assert(be32(self@.bytes, 4) == be32(self.buf@, 4));
            }
        }
        let mut fresh = ClientStream::from_parts(true, self.ended);
        if self.dropped > 0 {
            fresh.feed(self.rest.as_slice());
            assert(self.rest@ =~= o@.bytes.skip(n as int));
        } else {
            let tail = sub_bytes(self.buf.as_slice(), n as usize, self.buf.len());
            fresh.feed(tail.as_slice());
            assert(tail@ =~= o@.bytes.skip(n as int));
        }
        assert(fresh@.bytes =~= o@.bytes.skip(n as int));
        *self = fresh;
    }
}

} // verus!
