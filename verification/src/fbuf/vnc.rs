//! What the VNC server says to one client.
//!
//! A [`Session`] takes the bytes that came from the client and appends the
//! bytes to send. Its owner moves both over the socket, and hands input
//! events to the guest's input devices.

use vstd::prelude::*;
use vstd::string::*;

use super::rfb::{
    drawn, fb_update_header, handshake_security, handshake_version, next_message, offered,
    read_client_init, read_client_message, selection_verdict, send_security_types, send_server_init,
    send_version, server_init, skipped, starved, vnc_auth_challenge, vnc_response,
    write_fb_update_header, ClientMessage, ErrorKind, Msg, PixelFormat, RectHeader, RfbError,
    SecurityStep, ENCODING_DESKTOP_SIZE, ENCODING_RAW, RFB_VERSION, SECURITY_RESULT_FAILED,
    SECURITY_RESULT_OK,
};
use super::stream::{ClientStream, Received};
use super::{packed_height, packed_width, scale_abs, scaled, unpack_height, unpack_width};
use crate::bytes::{be32_bytes, put_bytes};

verus! {

/// Whether an error is an expected client disconnect.
pub fn is_expected_disconnect(kind: ErrorKind) -> (r: bool)
    ensures
        r == (kind == ErrorKind::ConnectionReset || kind == ErrorKind::BrokenPipe || kind
            == ErrorKind::UnexpectedEof),
{
    kind == ErrorKind::ConnectionReset || kind == ErrorKind::BrokenPipe || kind
        == ErrorKind::UnexpectedEof
}

/// What this client was told, and what it can be told later.
///
/// ServerInit carries the resolution once. A guest mode change after
/// that would otherwise put a rectangle larger than the client's
/// framebuffer on the wire, which most viewers answer by dropping the
/// connection.
#[derive(Debug, Clone, Copy, PartialEq, Eq, Structural)]
pub struct ClientView {
    pub width: u16,
    pub height: u16,
    /// Whether the client listed the DesktopSize pseudo-encoding.
    pub desktop_size: bool,
}

/// Input from the remote client, for the guest's input devices.
#[derive(Debug, Clone, Copy, PartialEq, Eq, Structural)]
pub enum InputEvent {
    Key { down: bool, keysym: u32 },
    Pointer { buttons: u8, x: u16, y: u16 },
}

/// What a message asks for.
#[derive(Debug, Clone, Copy, PartialEq, Eq, Structural)]
pub enum Request {
    Nothing,
    /// The client wants a display update.
    Update,
    /// The guest gets input.
    Input(InputEvent),
}

/// What a message asks for, and what is known of the client afterwards.
///
/// A pointer position is scaled by the current resolution, because the tablet
/// only clamps.
pub open spec fn dispatched(view: ClientView, res: u32, msg: Msg) -> (Request, ClientView) {
    match msg {
        Msg::FbUpdateRequest { .. } => (Request::Update, view),
        Msg::SetPixelFormat(_) => (Request::Nothing, view),
        Msg::SetEncodings(encs) => (
            Request::Nothing,
            ClientView { desktop_size: encs.contains(ENCODING_DESKTOP_SIZE), ..view },
        ),
        Msg::KeyEvent { down, key } => (
            Request::Input(InputEvent::Key { down, keysym: key }),
            view,
        ),
        Msg::PointerEvent { button_mask, x, y } => (
            Request::Input(
                InputEvent::Pointer {
                    buttons: button_mask,
                    x: scaled(x, packed_width(res)) as u16,
                    y: scaled(y, packed_height(res)) as u16,
                },
            ),
            view,
        ),
        Msg::CutText(_) => (Request::Nothing, view),
    }
}

/// Dispatch a VNC message and report what it asked for.
pub fn dispatch_client_message(view: &mut ClientView, res: u32, msg: &ClientMessage) -> (r: Request)
    ensures
        (r, *final(view)) == dispatched(*old(view), res, msg@),
{
    match msg {
        ClientMessage::FbUpdateRequest { .. } => Request::Update,
        // Only XRGB8888 is ever sent.
        ClientMessage::SetPixelFormat(_) => Request::Nothing,
        ClientMessage::SetEncodings(encs) => {
            view.desktop_size = lists(encs, ENCODING_DESKTOP_SIZE);
            Request::Nothing
        },
        ClientMessage::KeyEvent { down, key } => Request::Input(
            InputEvent::Key { down: *down, keysym: *key },
        ),
        ClientMessage::PointerEvent { button_mask, x, y } => Request::Input(
            InputEvent::Pointer {
                buttons: *button_mask,
                x: scale_abs(*x, unpack_width(res)),
                y: scale_abs(*y, unpack_height(res)),
            },
        ),
        ClientMessage::CutText(_) => Request::Nothing,
    }
}

fn lists(encs: &Vec<i32>, encoding: i32) -> (r: bool)
    ensures
        r == encs@.contains(encoding),
{
    let mut i: usize = 0;
    while i < encs.len()
        invariant
            i <= encs@.len(),
            forall|k: int| 0 <= k < i ==> encs@[k] != encoding,
        decreases encs@.len() - i,
    {
        if encs[i] == encoding {
            return true;
        }
        i += 1;
    }
    false
}

// ---- Framebuffer updates ---------------------------------------------------

pub open spec fn lesser(a: int, b: int) -> int {
    if a <= b {
        a
    } else {
        b
    }
}

/// A FramebufferUpdate header and one rectangle header of the whole screen.
pub open spec fn one_rect(width: u16, height: u16, encoding: i32) -> Seq<u8> {
    fb_update_header(1) + RectHeader { x: 0, y: 0, width, height, encoding }.bytes()
}

/// The first `height` rows of a picture whose rows are `stride` bytes apart,
/// each cut to `row` bytes.
pub open spec fn rows(pixels: Seq<u8>, stride: int, row: int, height: int) -> Seq<u8>
    decreases height,
{
    if height <= 0 {
        Seq::empty()
    } else {
        rows(pixels, stride, row, height - 1) + pixels.subrange(
            (height - 1) * stride,
            (height - 1) * stride + row,
        )
    }
}

/// What the client is told of the screen by an update: a resolution change
/// reaches a client that takes DesktopSize.
pub open spec fn told(view: ClientView, res: u32) -> ClientView {
    let width = packed_width(res);
    let height = packed_height(res);
    if view.desktop_size && width != 0 && height != 0 {
        ClientView { width, height, ..view }
    } else {
        view
    }
}

/// The rectangle of pixels that an update sends: no larger than what the
/// client was told, and no more rows than the pixel memory holds.
pub open spec fn rect_size(told: ClientView, res: u32, len: int) -> (int, int) {
    let width = packed_width(res);
    (
        lesser(width as int, told.width as int),
        lesser(lesser(packed_height(res) as int, told.height as int), len / (4 * width)),
    )
}

/// What one update sends: a resolution change, then the pixels.
pub open spec fn update(view: ClientView, res: u32, pixels: Seq<u8>) -> Seq<u8> {
    let width = packed_width(res);
    let height = packed_height(res);
    let after = told(view, res);
    let (w, h) = rect_size(after, res, pixels.len() as int);
    if width == 0 || height == 0 {
        Seq::empty()
    } else {
        let change = if after != view {
            one_rect(width, height, ENCODING_DESKTOP_SIZE)
        } else {
            Seq::empty()
        };
        if w == 0 || h == 0 {
            change
        } else {
            change + one_rect(w as u16, h as u16, ENCODING_RAW) + rows(
                pixels,
                4 * width,
                4 * w,
                h,
            )
        }
    }
}

fn put_rect(out: &mut Vec<u8>, width: u16, height: u16, encoding: i32)
    ensures
        final(out)@ == old(out)@ + one_rect(width, height, encoding),
{
    write_fb_update_header(out, 1);
    let rect = RectHeader { x: 0, y: 0, width, height, encoding };
    put_bytes(out, &rect.to_bytes());
    assert(out@ =~= old(out)@ + one_rect(width, height, encoding));
}

/// Send a full framebuffer update to the VNC client.
///
/// A guest mode change since ServerInit is announced first when the
/// client offered DesktopSize. A client that did not gets a rectangle
/// no larger than the framebuffer it was told about, because anything
/// larger is a protocol violation that most viewers drop.
pub fn send_framebuffer_update(out: &mut Vec<u8>, view: &mut ClientView, res: u32, pixels: &[u8])
    ensures
        final(out)@ == old(out)@ + update(*old(view), res, pixels@),
        *final(view) == told(*old(view), res),
{
    let width: u16 = unpack_width(res);
    let height: u16 = unpack_height(res);
    if width == 0 || height == 0 {
        assert(out@ =~= old(out)@ + Seq::<u8>::empty());
        return;
    }
    if view.desktop_size && (width != view.width || height != view.height) {
        put_rect(out, width, height, ENCODING_DESKTOP_SIZE);
        view.width = width;
        view.height = height;
    }
    // The rectangle may not exceed the client's framebuffer, and the
    // pixel data may not exceed the pixel memory.
    let send_w: u16 = if width <= view.width {
        width
    } else {
        view.width
    };
    let told_h: u16 = if height <= view.height {
        height
    } else {
        view.height
    };
    let stride: usize = 4 * width as usize;
    let max_rows: usize = pixels.len() / stride;
    let send_h: u16 = if told_h as usize <= max_rows {
        told_h
    } else {
        max_rows as u16
    };
    let ghost change = if told(*old(view), res) != *old(view) {
        one_rect(width, height, ENCODING_DESKTOP_SIZE)
    } else {
        Seq::empty()
    };
    assert(out@ =~= old(out)@ + change);
    if send_w == 0 || send_h == 0 {
        return;
    }
    put_rect(out, send_w, send_h, ENCODING_RAW);
    put_rows(out, pixels, stride, 4 * send_w as usize, send_h);
    proof {
        let head = one_rect(send_w, send_h, ENCODING_RAW);
        let body = rows(pixels@, stride as int, 4 * send_w, send_h as int);
        assert(old(out)@ + change + head + body =~= old(out)@ + (change + head + body));
    }
}

/// Send the first `height` rows, cut to `row_bytes`.
///
/// Rows are `stride` bytes apart in the pixel memory, so a narrower
/// rectangle is copied row by row.
fn put_rows(out: &mut Vec<u8>, pixels: &[u8], stride: usize, row_bytes: usize, height: u16)
    requires
        0 < row_bytes <= stride,
        height <= pixels@.len() / stride as nat,
    ensures
        final(out)@ == old(out)@ + rows(
            pixels@,
            stride as int,
            row_bytes as int,
            height as int,
        ),
{
    let ghost head = out@;
    let size: usize = pixels.len();
    let max_rows: usize = size / stride;
    let mut row: u16 = 0;
    assert(head =~= head + rows(pixels@, stride as int, row_bytes as int, 0));
    while row < height
        invariant
            row <= height <= max_rows,
            0 < row_bytes <= stride,
            size == pixels@.len(),
            max_rows == size / stride,
            out@ == head + rows(pixels@, stride as int, row_bytes as int, row as int),
        decreases height - row,
    {
        assert((row + 1) * stride <= size) by (nonlinear_arith)
            requires
                row + 1 <= max_rows,
                max_rows == size / stride,
                stride > 0,
        ;
        assert((row + 1) * stride == row * stride + stride) by (nonlinear_arith);
        assert(0 <= row * stride) by (nonlinear_arith)
            requires
                row >= 0,
                stride >= 0,
        ;
        let from: usize = row as usize * stride;
        let part = crate::bytes::sub_bytes(pixels, from, from + row_bytes);
        put_bytes(out, part.as_slice());
        row += 1;
        assert(out@ =~= head + rows(pixels@, stride as int, row_bytes as int, row as int));
    }
}

/// The rows hold `row` bytes each.
pub proof fn rows_len(pixels: Seq<u8>, stride: int, row: int, height: int)
    requires
        0 <= row <= stride,
        0 <= height,
        height * stride <= pixels.len(),
    ensures
        rows(pixels, stride, row, height).len() == height * row,
    decreases height,
{
    if height > 0 {
        assert(height * stride == (height - 1) * stride + stride) by (nonlinear_arith);
        assert(height * row == (height - 1) * row + row) by (nonlinear_arith);
        assert(0 <= (height - 1) * stride) by (nonlinear_arith)
            requires
                height >= 1,
                stride >= 0,
        ;
        rows_len(pixels, stride, row, height - 1);
    } else {
        assert(height * row == 0) by (nonlinear_arith)
            requires
                height == 0,
        ;
    }
}

/// The rectangle a client gets is never larger than the framebuffer it was
/// told about, and its header is followed by exactly its pixels.
pub proof fn rectangle_fits_client(view: ClientView, res: u32, pixels: Seq<u8>)
    requires
        packed_width(res) != 0,
        packed_height(res) != 0,
    ensures
        ({
            let after = told(view, res);
            let (w, h) = rect_size(after, res, pixels.len() as int);
            &&& !view.desktop_size ==> after == view
            &&& 0 <= w <= after.width
            &&& 0 <= h <= after.height
            &&& rows(pixels, 4 * packed_width(res), 4 * w, h).len() == h * (4 * w)
        }),
{
    let after = told(view, res);
    let width = packed_width(res) as int;
    let (w, h) = rect_size(after, res, pixels.len() as int);
    let n = pixels.len() as int;
    assert(h * (4 * width) <= n && 0 <= h) by (nonlinear_arith)
        requires
            h <= n / (4 * width),
            width > 0,
            n >= 0,
            h >= 0 || h == n / (4 * width),
    ;
    rows_len(pixels, 4 * width, 4 * w, h);
}

/// After an update the client knows the current size, if it takes
/// DesktopSize: the next update announces nothing.
pub proof fn size_is_announced_once(view: ClientView, res: u32)
    ensures
        told(told(view, res), res) == told(view, res),
{
}

// ---- One client's connection -----------------------------------------------

/// Where a connection stands.
#[derive(Debug, Clone, Copy)]
pub enum Phase {
    /// The client's version string has to come.
    Version,
    /// The client has to choose a security type.
    Security,
    /// The client has to answer this challenge.
    Auth([u8; 16]),
    /// The client's ClientInit has to come.
    Init,
    /// Messages come.
    Running,
    /// The client was given up, for this reason.
    Ended(RfbError),
}

/// One client's connection.
pub struct Session {
    phase: Phase,
    stream: ClientStream,
    view: ClientView,
    update_requested: bool,
}

/// A connection as its owner sees it.
pub ghost struct SessionView {
    pub phase: Phase,
    pub received: Received,
    pub view: ClientView,
    pub update_requested: bool,
}

impl View for Session {
    type V = SessionView;

    closed spec fn view(&self) -> SessionView {
        SessionView {
            phase: self.phase,
            received: self.stream@,
            view: self.view,
            update_requested: self.update_requested,
        }
    }
}

/// What one step of a session came to.
#[derive(Debug, Clone, Copy, PartialEq, Eq, Structural)]
pub enum Step {
    /// The handshake moved on, or a message was taken.
    Advanced,
    /// The guest gets input.
    Input(InputEvent),
    /// The client has left.
    Closed,
}

/// The bytes of a password, if there is one.
pub open spec fn password_bytes(password: Option<&str>) -> Option<Seq<u8>> {
    match password {
        Some(p) => Some(p.spec_bytes()),
        None => None,
    }
}

impl SessionView {
    /// The session in `phase` with the first `n` bytes taken.
    pub open spec fn moved(self, phase: Phase, n: int) -> SessionView {
        SessionView { phase, received: skipped(self.received, n), ..self }
    }

    /// The session once `data` came from the client.
    pub open spec fn fed(self, data: Seq<u8>) -> SessionView {
        SessionView {
            received: Received { bytes: self.received.bytes + data, ..self.received },
            ..self
        }
    }

    /// The session once the client closed its end.
    pub open spec fn closed(self) -> SessionView {
        SessionView { received: Received { ended: true, ..self.received }, ..self }
    }

    /// The session after an error. Every error ends it but the one that says
    /// that more has to come.
    pub open spec fn failed(self, e: RfbError) -> SessionView {
        if e == RfbError::WouldBlock {
            self
        } else {
            SessionView { phase: Phase::Ended(e), ..self }
        }
    }

    /// How many bytes the handshake needs before it moves on.
    pub open spec fn needs(self) -> int {
        match self.phase {
            Phase::Version => 12,
            Phase::Security => 1,
            Phase::Auth(_) => 16,
            Phase::Init => 1,
            Phase::Running => 0,
            Phase::Ended(_) => 0,
        }
    }

    /// What a message does to a running session.
    pub open spec fn ran(self, res: u32) -> (Result<Step, RfbError>, SessionView) {
        let (answer, received) = next_message(self.received);
        match answer {
            Ok(Some(msg)) => {
                let (request, view) = dispatched(self.view, res, msg);
                (
                    Ok(
                        match request {
                            Request::Input(e) => Step::Input(e),
                            _ => Step::Advanced,
                        },
                    ),
                    SessionView {
                        received,
                        view,
                        update_requested: self.update_requested || request == Request::Update,
                        ..self
                    },
                )
            },
            Ok(None) => (Ok(Step::Closed), SessionView { received, ..self }),
            Err(e) => (Err(e), SessionView { received, ..self }.failed(e)),
        }
    }

    /// Whether a step of this session may answer `r`, send `sent` and leave
    /// `after`. Only the challenge is open: it is what the random number
    /// source gave.
    pub open spec fn steps_to(
        self,
        password: Option<Seq<u8>>,
        res: u32,
        r: Result<Step, RfbError>,
        after: SessionView,
        sent: Seq<u8>,
    ) -> bool {
        let bytes = self.received.bytes;
        if bytes.len() < self.needs() {
            // Without enough bytes nothing happens.
            let e = starved(self.received);
            r == Err::<Step, RfbError>(e) && after == self.failed(e) && sent.len() == 0
        } else {
            match self.phase {
                Phase::Version => {
                    &&& r == Ok::<Step, RfbError>(Step::Advanced)
                    &&& after == self.moved(Phase::Security, 12)
                    &&& sent == seq![1u8, offered(password is Some)]
                },
                Phase::Security => match selection_verdict(bytes[0], password is Some) {
                    Some((Ok(_), word)) => {
                        &&& r == Ok::<Step, RfbError>(Step::Advanced)
                        &&& after == self.moved(Phase::Init, 1)
                        &&& sent == be32_bytes(word)
                    },
                    Some((Err(e), word)) => {
                        &&& r == Err::<Step, RfbError>(e)
                        &&& after == self.moved(Phase::Ended(e), 1)
                        &&& sent == be32_bytes(word)
                    },
                    None => exists|random: Result<[u8; 16], getrandom::Error>| #[trigger]
                        drawn(random) && match random {
                            Ok(c) => {
                                &&& r == Ok::<Step, RfbError>(Step::Advanced)
                                &&& after == self.moved(Phase::Auth(c), 1)
                                &&& sent == c@
                            },
                            Err(_) => {
                                &&& r == Err::<Step, RfbError>(RfbError::NoEntropy)
                                &&& after == self.moved(Phase::Ended(RfbError::NoEntropy), 1)
                                &&& sent.len() == 0
                            },
                        },
                },
                Phase::Auth(c) => if bytes.take(16) == vnc_response(password->0, c@) {
                    &&& r == Ok::<Step, RfbError>(Step::Advanced)
                    &&& after == self.moved(Phase::Init, 16)
                    &&& sent == be32_bytes(SECURITY_RESULT_OK)
                } else {
                    &&& r == Err::<Step, RfbError>(RfbError::VncAuthFailed)
                    &&& after == self.moved(Phase::Ended(RfbError::VncAuthFailed), 16)
                    &&& sent == be32_bytes(SECURITY_RESULT_FAILED)
                },
                Phase::Init => {
                    &&& r == Ok::<Step, RfbError>(Step::Advanced)
                    &&& after == (SessionView {
                        view: ClientView {
                            width: packed_width(res),
                            height: packed_height(res),
                            desktop_size: false,
                        },
                        ..self.moved(Phase::Running, 1)
                    })
                    &&& sent == server_init(
                        packed_width(res),
                        packed_height(res),
                        PixelFormat::spec_xrgb8888(),
                        "bhyve framebuffer".spec_bytes(),
                    )
                },
                Phase::Running => (r, after) == self.ran(res) && sent.len() == 0,
                Phase::Ended(e) => {
                    &&& r == Err::<Step, RfbError>(e)
                    &&& after == self
                    &&& sent.len() == 0
                },
            }
        }
    }
}

impl Session {
    pub closed spec fn wf(&self) -> bool {
        &&& self.stream.wf()
        &&& self.phase is Running ==> self.stream.is_framed()
        &&& !(self.phase is Running) && !(self.phase is Ended) ==> !self.stream.is_framed()
    }

    /// A client has connected: the server speaks first.
    pub fn start(out: &mut Vec<u8>) -> (r: Session)
        ensures
            r.wf(),
            r@ == (SessionView {
                phase: Phase::Version,
                received: Received { bytes: Seq::empty(), ended: false },
                view: ClientView { width: 0, height: 0, desktop_size: false },
                update_requested: false,
            }),
            final(out)@ == old(out)@ + RFB_VERSION@,
    {
        send_version(out);
        Session {
            phase: Phase::Version,
            stream: ClientStream::new(),
            view: ClientView { width: 0, height: 0, desktop_size: false },
            update_requested: false,
        }
    }

    /// Bytes came from the client.
    pub fn feed(&mut self, data: &[u8])
        requires
            old(self).wf(),
        ensures
            final(self).wf(),
            final(self)@ == old(self)@.fed(data@),
    {
        self.stream.feed(data);
    }

    /// The client closed its end.
    pub fn end(&mut self)
        requires
            old(self).wf(),
        ensures
            final(self).wf(),
            final(self)@ == old(self)@.closed(),
    {
        self.stream.end();
    }

    /// Whether the handshake is over.
    pub fn is_running(&self) -> (r: bool)
        ensures
            r == (self@.phase is Running),
    {
        matches!(self.phase, Phase::Running)
    }

    /// Whether a message has begun to come and is not all there.
    pub fn is_mid_message(&self) -> (r: bool)
        requires
            self.wf(),
        ensures
            r == (self@.phase is Running && self@.received.bytes.len() > 0),
    {
        self.is_running() && !self.stream.is_empty()
    }

    /// Whether the client asked for an update since this was last called.
    pub fn take_update_request(&mut self) -> (r: bool)
        requires
            old(self).wf(),
        ensures
            final(self).wf(),
            r == old(self)@.update_requested,
            final(self)@ == (SessionView { update_requested: false, ..old(self)@ }),
    {
        let r = self.update_requested;
        self.update_requested = false;
        r
    }

    /// Send the client an update.
    pub fn send_update(&mut self, out: &mut Vec<u8>, res: u32, pixels: &[u8])
        requires
            old(self).wf(),
        ensures
            final(self).wf(),
            final(out)@ == old(out)@ + update(old(self)@.view, res, pixels@),
            final(self)@ == (SessionView { view: told(old(self)@.view, res), ..old(self)@ }),
    {
        send_framebuffer_update(out, &mut self.view, res, pixels);
    }

    /// Take what has come one step further.
    ///
    /// The error [`RfbError::WouldBlock`] says that more has to come first.
    /// Any other ends the session: it is answered with that error from then
    /// on, whatever the client sends.
    pub fn step(&mut self, password: Option<&str>, res: u32, out: &mut Vec<u8>) -> (r: Result<
        Step,
        RfbError,
    >)
        requires
            old(self).wf(),
            old(self)@.phase is Auth ==> password is Some,
        ensures
            final(self).wf(),
            exists|sent: Seq<u8>|
                final(out)@ == old(out)@ + sent && #[trigger] old(self)@.steps_to(
                    password_bytes(password),
                    res,
                    r,
                    final(self)@,
                    sent,
                ),
    {
        let ghost before = out@;
        let ghost start = self@;
        let r = match self.phase {
            Phase::Version => match handshake_version(&mut self.stream) {
                Ok(_) => {
                    send_security_types(password.is_some(), out);
                    self.phase = Phase::Security;
                    Ok(Step::Advanced)
                },
                Err(e) => self.fail(e),
            },
            Phase::Security => match handshake_security(
                &mut self.stream,
                out,
                password.is_some(),
            ) {
                Ok(SecurityStep::Accepted) => {
                    self.phase = Phase::Init;
                    Ok(Step::Advanced)
                },
                Ok(SecurityStep::Challenged(c)) => {
                    self.phase = Phase::Auth(c);
                    Ok(Step::Advanced)
                },
                Err(e) => self.fail(e),
            },
            Phase::Auth(c) => match vnc_auth_challenge(
                &mut self.stream,
                out,
                password.unwrap(),
                &c,
            ) {
                Ok(()) => {
                    self.phase = Phase::Init;
                    Ok(Step::Advanced)
                },
                Err(e) => self.fail(e),
            },
            Phase::Init => match read_client_init(&mut self.stream) {
                Ok(_) => {
                    self.start_messages(res, out);
                    Ok(Step::Advanced)
                },
                Err(e) => self.fail(e),
            },
            Phase::Running => match read_client_message(&mut self.stream) {
                Ok(Some(msg)) => {
                    let request = dispatch_client_message(&mut self.view, res, &msg);
                    if request == Request::Update {
                        self.update_requested = true;
                    }
                    match request {
                        Request::Input(e) => Ok(Step::Input(e)),
                        _ => Ok(Step::Advanced),
                    }
                },
                Ok(None) => Ok(Step::Closed),
                Err(e) => self.fail(e),
            },
            Phase::Ended(e) => Err(e),
        };
        proof {
            let sent = out@.skip(before.len() as int);
            assert(out@ =~= before + sent);
            assert forall|x: Seq<u8>| (#[trigger] (before + x)).skip(before.len() as int) == x by {
                assert((before + x).skip(before.len() as int) =~= x);
            }
            assert(start.steps_to(password_bytes(password), res, r, self@, sent));
        }
        r
    }

    /// Give the client up, unless it only has to send more.
    fn fail(&mut self, e: RfbError) -> (r: Result<Step, RfbError>)
        requires
            old(self).wf(),
        ensures
            final(self).wf(),
            final(self)@ == old(self)@.failed(e),
            r == Err::<Step, RfbError>(e),
    {
        if e != RfbError::WouldBlock {
            self.phase = Phase::Ended(e);
        }
        Err(e)
    }

    /// Tell the client about the screen. Messages come from now on.
    fn start_messages(&mut self, res: u32, out: &mut Vec<u8>)
        requires
            old(self).wf(),
            old(self)@.phase is Init,
        ensures
            final(self).wf(),
            final(self)@ == (SessionView {
                phase: Phase::Running,
                view: ClientView {
                    width: packed_width(res),
                    height: packed_height(res),
                    desktop_size: false,
                },
                ..old(self)@
            }),
            final(out)@ == old(out)@ + server_init(
                packed_width(res),
                packed_height(res),
                PixelFormat::spec_xrgb8888(),
                "bhyve framebuffer".spec_bytes(),
            ),
    {
        let width: u16 = unpack_width(res);
        let height: u16 = unpack_height(res);
        send_server_init(out, width, height, &PixelFormat::xrgb8888(), "bhyve framebuffer");
        self.view = ClientView { width, height, desktop_size: false };
        self.phase = Phase::Running;
        self.stream.start_messages();
    }
}

// ---- Laws of a connection --------------------------------------------------

/// Whether `after` may be what is left of a session once one thing happened:
/// bytes came, the client closed its end, or a step was taken.
pub open spec fn follows(
    before: SessionView,
    after: SessionView,
    password: Option<Seq<u8>>,
) -> bool {
    ||| exists|data: Seq<u8>|
        after == #[trigger] before.fed(data)
    ||| after == before.closed()
    ||| exists|res: u32, r: Result<Step, RfbError>, sent: Seq<u8>| #[trigger]
        before.steps_to(password, res, r, after, sent)
}

/// A refusal is final: once a client was given up, nothing that it sends, and
/// no step, brings the session back.
pub proof fn refusal_is_final(run: Seq<SessionView>, password: Option<Seq<u8>>)
    requires
        run.len() > 0,
        run[0].phase is Ended,
        forall|k: int|
            0 <= k < run.len() - 1 ==> follows(#[trigger] run[k], run[k + 1], password),
    ensures
        run.last().phase == run[0].phase,
    decreases run.len(),
{
    if run.len() > 1 {
        let shorter = run.drop_last();
        assert forall|k: int| 0 <= k < shorter.len() - 1 implies follows(
            #[trigger] shorter[k],
            shorter[k + 1],
            password,
        ) by {
            assert(shorter[k] == run[k] && shorter[k + 1] == run[k + 1]);
        }
        refusal_is_final(shorter, password);
        assert(shorter.last() == run[run.len() - 2]);
        assert(follows(run[run.len() - 2], run[run.len() - 2 + 1], password));
    }
}

/// With a password a client is let in by one thing only: the right response
/// to the challenge that it was sent. A wrong one ends the session.
pub proof fn password_guards_the_screen(
    before: SessionView,
    after: SessionView,
    password: Seq<u8>,
    res: u32,
    r: Result<Step, RfbError>,
    sent: Seq<u8>,
)
    requires
        before.steps_to(Some(password), res, r, after, sent),
    ensures
        after.phase is Init && !(before.phase is Init) ==> {
            &&& before.phase is Auth
            &&& before.received.bytes.take(16) == vnc_response(password, before.phase->Auth_0@)
        },
        after.phase is Running && !(before.phase is Running) ==> before.phase is Init,
        before.phase is Auth && before.received.bytes.len() >= 16 ==> after.phase is Init
            || after.phase is Ended,
{
    super::rfb::password_is_always_asked(before.received.bytes[0]);
}

} // verus!
