//! Host-side backends for an emulated UART.
//!
//! An emulated serial port needs a destination for the bytes the guest
//! transmits and a source for the bytes it receives.
//!
//! Every stdout-bound port shares one writer, because the transmit sink runs
//! while the port is held and may not wait for a consumer. Its queue is
//! [`OutputQueue`]; the thread that empties it is the owner's.

use std::collections::VecDeque;

use vstd::prelude::*;
use vstd::std_specs::vecdeque::*;

verus! {

/// Bytes the stdout pump holds for a consumer that has fallen behind.
/// Past this the sink drops bytes rather than park the vCPU that wrote
/// them: the guest keeps running with a gap in its console.
pub const STDOUT_QUEUE_CAP: usize = 0x1_0000;

/// Where one emulated serial port's bytes come from and go to.
#[derive(Debug, Clone, Copy)]
pub enum SerialBackend<'a> {
    /// This process's own stdio: transmit to stdout, receive from
    /// stdin.
    Stdio,
    /// This process's stdout, with no receive path. Used for a one-way
    /// marker channel, and for the second port when the first one
    /// already owns stdin.
    StdoutOnly,
    /// A character device or pty, opened read/write.
    Device(&'a str),
}

impl<'a> SerialBackend<'a> {
    /// Whether the port transmits to stdout.
    pub fn uses_stdout(&self) -> (r: bool)
        ensures
            r == !(self is Device),
    {
        match self {
            SerialBackend::Stdio | SerialBackend::StdoutOnly => true,
            SerialBackend::Device(_) => false,
        }
    }

    /// Whether the port receives from stdin, which only one port may.
    pub fn uses_stdin(&self) -> (r: bool)
        ensures
            r == (self is Stdio),
    {
        match self {
            SerialBackend::Stdio => true,
            _ => false,
        }
    }
}

/// The bytes that wait for stdout.
pub struct OutputQueue {
    buf: VecDeque<u8>,
    /// Bytes the writer has taken but not yet written.
    in_flight: usize,
    /// Set once a write failed. The consumer is gone, so every later
    /// byte is discarded rather than queued.
    closed: bool,
    dropped: u64,
}

/// The queue as its users see it.
pub ghost struct Output {
    pub buf: Seq<u8>,
    pub in_flight: nat,
    pub closed: bool,
    pub dropped: nat,
}

impl View for OutputQueue {
    type V = Output;

    closed spec fn view(&self) -> Output {
        Output {
            buf: self.buf@,
            in_flight: self.in_flight as nat,
            closed: self.closed,
            dropped: self.dropped as nat,
        }
    }
}

/// What became of a byte that was pushed.
#[derive(Debug, Clone, Copy, PartialEq, Eq, Structural)]
pub enum Pushed {
    /// It waits. The writer has to be woken if nothing waited before.
    Queued { wake: bool },
    /// The queue is full. Only the first drop is worth a word.
    Dropped { first: bool },
    /// The consumer is gone.
    Discarded,
}

/// What a caller who waits for the queue to drain does next.
#[derive(Debug, Clone, Copy, PartialEq, Eq, Structural)]
pub enum FlushStep {
    /// Everything is out, or nothing can be.
    Drained,
    /// The time is up.
    GaveUp,
    /// Wait until the queue changes.
    Wait,
}

impl Output {
    /// A queue is bounded, and a closed one holds nothing.
    pub open spec fn wf(self) -> bool {
        self.buf.len() <= STDOUT_QUEUE_CAP && (self.closed ==> self.buf.len() == 0)
    }

    pub open spec fn pushed(self, b: u8) -> (Pushed, Output) {
        if self.closed {
            (Pushed::Discarded, self)
        } else if self.buf.len() >= STDOUT_QUEUE_CAP {
            (
                Pushed::Dropped { first: self.dropped == 0 },
                Output {
                    dropped: if self.dropped < u64::MAX {
                        self.dropped + 1
                    } else {
                        self.dropped
                    },
                    ..self
                },
            )
        } else {
            (
                Pushed::Queued { wake: self.buf.len() == 0 },
                Output { buf: self.buf.push(b), ..self },
            )
        }
    }

    /// Whether a flush is over.
    pub open spec fn is_drained(self) -> bool {
        self.closed || (self.buf.len() == 0 && self.in_flight == 0)
    }

    pub open spec fn flush(self, left_ms: u64) -> FlushStep {
        if self.is_drained() {
            FlushStep::Drained
        } else if left_ms == 0 {
            FlushStep::GaveUp
        } else {
            FlushStep::Wait
        }
    }
}

impl OutputQueue {
    pub fn new() -> (r: Self)
        ensures
            r@ == (Output { buf: Seq::empty(), in_flight: 0, closed: false, dropped: 0 }),
            r@.wf(),
    {
        let r = OutputQueue { buf: VecDeque::new(), in_flight: 0, closed: false, dropped: 0 };
        assert(r@.buf =~= Seq::<u8>::empty());
        r
    }

    /// Queue one byte. Never waits: a full queue or a closed consumer
    /// drops the byte.
    pub fn push(&mut self, b: u8) -> (r: Pushed)
        requires
            old(self)@.wf(),
        ensures
            final(self)@.wf(),
            (r, final(self)@) == old(self)@.pushed(b),
    {
        if self.closed {
            return Pushed::Discarded;
        }
        if self.buf.len() >= STDOUT_QUEUE_CAP {
            let first = self.dropped == 0;
            if self.dropped < u64::MAX {
                self.dropped += 1;
            }
            return Pushed::Dropped { first };
        }
        let was_idle = self.buf.len() == 0;
        self.buf.push_back(b);
        Pushed::Queued { wake: was_idle }
    }

    /// The writer takes everything that waits, if anything does.
    pub fn take_chunk(&mut self) -> (r: Option<Vec<u8>>)
        requires
            old(self)@.wf(),
        ensures
            final(self)@.wf(),
            old(self)@.buf.len() == 0 ==> r is None && final(self)@ == old(self)@,
            old(self)@.buf.len() > 0 ==> {
                &&& r is Some
                &&& r->0@ == old(self)@.buf
                &&& final(self)@ == (Output {
                    buf: Seq::empty(),
                    in_flight: old(self)@.buf.len(),
                    ..old(self)@
                })
            },
    {
        if self.buf.len() == 0 {
            return None;
        }
        let mut chunk: Vec<u8> = Vec::new();
        while self.buf.len() > 0
            invariant
                chunk@ + self.buf@ == old(self)@.buf,
                self@ == (Output { buf: self.buf@, ..old(self)@ }),
            decreases self.buf@.len(),
        {
            let ghost before = self.buf@;
            if let Some(b) = self.buf.pop_front() {
                chunk.push(b);
                assert(chunk@ + self.buf@ =~= chunk@.drop_last() + before);
            }
        }
        self.in_flight = chunk.len();
        assert(chunk@ =~= old(self)@.buf);
        assert(self@.buf =~= Seq::<u8>::empty());
        Some(chunk)
    }

    /// The writer wrote what it took, or could not. A failed write means that
    /// the consumer is gone: the queue closes and the writer may end.
    pub fn chunk_written(&mut self, ok: bool)
        requires
            old(self)@.wf(),
        ensures
            final(self)@.wf(),
            final(self)@ == if ok {
                Output { in_flight: 0, ..old(self)@ }
            } else {
                Output { in_flight: 0, closed: true, buf: Seq::empty(), ..old(self)@ }
            },
    {
        self.in_flight = 0;
        if !ok {
            self.closed = true;
            self.buf.clear();
            assert(self@.buf =~= Seq::<u8>::empty());
        }
    }

    /// What a caller who waits for the queue to drain does next, with
    /// `left_ms` of its time left.
    pub fn flush(&self, left_ms: u64) -> (r: FlushStep)
        ensures
            r == self@.flush(left_ms),
    {
        if self.closed || (self.buf.len() == 0 && self.in_flight == 0) {
            FlushStep::Drained
        } else if left_ms == 0 {
            FlushStep::GaveUp
        } else {
            FlushStep::Wait
        }
    }

    pub fn dropped(&self) -> (r: u64)
        ensures
            r == self@.dropped,
    {
        self.dropped
    }

    pub fn is_closed(&self) -> (r: bool)
        ensures
            r == self@.closed,
    {
        self.closed
    }
}

/// What a caller who waits for stdout to drain does next. Without a pump
/// nothing was ever queued.
pub fn flush_stdout(pump: Option<&OutputQueue>, left_ms: u64) -> (r: FlushStep)
    ensures
        r == match pump {
            Some(q) => q@.flush(left_ms),
            None => FlushStep::Drained,
        },
{
    match pump {
        Some(q) => q.flush(left_ms),
        None => FlushStep::Drained,
    }
}

/// What came of waiting for a serial device and reading it.
#[derive(Debug, Clone, Copy, PartialEq, Eq, Structural)]
pub enum DeviceRead {
    /// Nothing came before the wait ended.
    Idle,
    /// The device is gone.
    Gone,
    /// So many bytes were read.
    Bytes(usize),
    /// The read would have waited, or was interrupted.
    Again,
    /// The read failed.
    Failed,
}

/// Whether the reader of a serial device goes on: until the device is gone,
/// ends, or fails.
pub fn reader_goes_on(read: DeviceRead) -> (r: bool)
    ensures
        r == (read != DeviceRead::Gone && read != DeviceRead::Bytes(0) && read
            != DeviceRead::Failed),
{
    match read {
        DeviceRead::Gone | DeviceRead::Failed => false,
        DeviceRead::Bytes(n) => n != 0,
        DeviceRead::Idle | DeviceRead::Again => true,
    }
}

/// Bytes leave the queue in the order they came, and the queue never passes
/// its bound.
pub proof fn queue_keeps_order(q: Output, b: u8)
    requires
        q.wf(),
    ensures
        q.pushed(b).1.wf(),
        q.pushed(b).0 is Queued ==> q.pushed(b).1.buf == q.buf.push(b),
        !(q.pushed(b).0 is Queued) ==> q.pushed(b).1.buf == q.buf,
        q.pushed(b).0 is Queued <==> !q.closed && q.buf.len() < STDOUT_QUEUE_CAP,
{
}

/// The queue takes 65536 bytes. A byte past that is dropped and counted, and
/// only the first drop is told. The writer is woken exactly for the byte that
/// finds the queue empty. A queue whose consumer left takes nothing.
pub proof fn full_queue_drops(q: Output, b: u8)
    ensures
        ({
            let (r, after) = q.pushed(b);
            &&& q.closed ==> r == Pushed::Discarded && after == q
            &&& !q.closed && q.buf.len() >= 65536 ==> {
                &&& r == (Pushed::Dropped { first: q.dropped == 0 })
                &&& after.buf == q.buf
                &&& q.dropped < u64::MAX ==> after.dropped == q.dropped + 1
            }
            &&& !q.closed && q.buf.len() < 65536 ==> {
                &&& r == (Pushed::Queued { wake: q.buf.len() == 0 })
                &&& after.buf == q.buf.push(b)
                &&& after.dropped == q.dropped
            }
            &&& after.in_flight == q.in_flight
            &&& after.closed == q.closed
        }),
{
}

/// A flush ends once nothing waits and nothing is being written, or once the
/// consumer left; until then it waits while it has time.
pub proof fn flush_waits_for_the_writer(q: Output, b: u8, left_ms: u64)
    ensures
        q.closed ==> q.flush(left_ms) == FlushStep::Drained,
        !q.closed && (q.buf.len() > 0 || q.in_flight > 0) ==> q.flush(left_ms) == if left_ms == 0 {
            FlushStep::GaveUp
        } else {
            FlushStep::Wait
        },
        q.buf.len() == 0 && q.in_flight == 0 ==> q.flush(left_ms) == FlushStep::Drained,
        q.pushed(b).0 is Queued ==> q.pushed(b).1.flush(left_ms) != FlushStep::Drained,
{
}

/// A reader goes on until its device is gone, came to its end or failed, and
/// only the console of this process owns its input.
pub proof fn readers_end_with_their_device(
    read: DeviceRead,
    goes_on: bool,
    backend: SerialBackend,
    reads: bool,
    writes: bool,
)
    requires
        call_ensures(reader_goes_on, (read,), goes_on),
        call_ensures(SerialBackend::uses_stdin, (&backend,), reads),
        call_ensures(SerialBackend::uses_stdout, (&backend,), writes),
    ensures
        read == DeviceRead::Idle || read == DeviceRead::Again ==> goes_on,
        read == DeviceRead::Gone || read == DeviceRead::Failed ==> !goes_on,
        read matches DeviceRead::Bytes(n) ==> goes_on == (n > 0),
        reads ==> writes,
        backend is Stdio ==> reads,
        backend is StdoutOnly ==> writes && !reads,
        backend is Device ==> !writes,
{
}

} // verus!
