//! What a VNC client reads and writes, byte by byte.

use vstd::prelude::*;

use super::rfb::{
    minor_version, next_message, offered, reversed, selection_verdict, vnc_key, Msg,
    PixelFormat, RfbError, SecurityStep,
};
use super::stream::Received;
use super::vnc::{
    dispatched, one_rect, rect_size, rows, rows_len, told, update, ClientView, InputEvent, Request,
    SessionView, Step,
};
use super::{packed_height, packed_width, scaled};

verus! {

/// The number in the two bytes of `s` at `at`, the highest first.
pub open spec fn word_in(s: Seq<u8>, at: int) -> int {
    0x100 * s[at] + s[at + 1]
}

/// The number in the four bytes of `s` at `at`, the highest first.
pub open spec fn long_in(s: Seq<u8>, at: int) -> int {
    0x1_0000 * word_in(s, at) + word_in(s, at + 2)
}

/// Each row goes out from its own place in pixel memory: byte `x` of row `y`
/// is byte `y * stride + x` of the memory.
pub proof fn rows_are_sent_in_place(
    pixels: Seq<u8>,
    stride: int,
    row: int,
    height: int,
    y: int,
    x: int,
)
    requires
        0 <= row <= stride,
        0 <= y < height,
        0 <= x < row,
        height * stride <= pixels.len(),
    ensures
        0 <= y * row + x < rows(pixels, stride, row, height).len(),
        rows(pixels, stride, row, height)[y * row + x] == pixels[y * stride + x],
    decreases height,
{
    let last = height - 1;
    assert(height * stride == last * stride + stride) by (nonlinear_arith)
        requires
            last == height - 1,
    ;
    assert(height * row == last * row + row) by (nonlinear_arith)
        requires
            last == height - 1,
    ;
    assert(0 <= last * stride && 0 <= y * row) by (nonlinear_arith)
        requires
            last >= 0,
            stride >= 0,
            y >= 0,
            row >= 0,
    ;
    rows_len(pixels, stride, row, height);
    rows_len(pixels, stride, row, last);
    if y < last {
        rows_are_sent_in_place(pixels, stride, row, last, y, x);
    }
}

/// Rows of the full width are the front of pixel memory, unchanged.
pub proof fn full_rows_are_the_memory(pixels: Seq<u8>, stride: int, height: int)
    requires
        0 <= stride,
        0 <= height,
        height * stride <= pixels.len(),
    ensures
        rows(pixels, stride, stride, height) == pixels.take(height * stride),
    decreases height,
{
    if height > 0 {
        let last = height - 1;
        assert(height * stride == last * stride + stride) by (nonlinear_arith)
            requires
                last == height - 1,
        ;
        assert(0 <= last * stride) by (nonlinear_arith)
            requires
                last >= 0,
                stride >= 0,
        ;
        full_rows_are_the_memory(pixels, stride, last);
        assert(rows(pixels, stride, stride, height) =~= pixels.take(height * stride));
    } else {
        assert(height * stride == 0) by (nonlinear_arith)
            requires
                height == 0,
        ;
        assert(rows(pixels, stride, stride, height) =~= pixels.take(0));
    }
}

/// A message of one rectangle at the origin: type 0, a count of 1, the place,
/// the size and the encoding, each highest byte first.
pub open spec fn is_rect(s: Seq<u8>, at: int, width: int, height: int, encoding: int) -> bool {
    &&& at + 16 <= s.len()
    &&& s[at] == 0
    &&& s[at + 1] == 0
    &&& word_in(s, at + 2) == 1
    &&& word_in(s, at + 4) == 0
    &&& word_in(s, at + 6) == 0
    &&& word_in(s, at + 8) == width
    &&& word_in(s, at + 10) == height
    &&& long_in(s, at + 12) == encoding
}

proof fn one_rect_is(width: u16, height: u16)
    ensures
        one_rect(width, height, 0).len() == 16,
        is_rect(one_rect(width, height, 0), 0, width as int, height as int, 0),
        one_rect(width, height, (-223) as i32).len() == 16,
        is_rect(one_rect(width, height, (-223) as i32), 0, width as int, height as int, 0xFFFF_FF21),
{
}

/// An update is the Raw rectangle of what the client can show: the display's
/// size cut to the client's, and to the rows that pixel memory holds. Before
/// it goes, once, a rectangle that announces a changed size to a client that
/// asked for it. Pixel `(x, y)` of the rectangle is that of the display.
pub proof fn update_shows_the_display(
    view: ClientView,
    res: u32,
    pixels: Seq<u8>,
    y: int,
    x: int,
)
    requires
        res / 0x1_0000 != 0,
        res % 0x1_0000 != 0,
        0 <= y < res % 0x1_0000,
        0 <= x < 4 * (res / 0x1_0000),
    ensures
        ({
            let width = (res / 0x1_0000) as int;
            let height = (res % 0x1_0000) as int;
            let s = update(view, res, pixels);
            let resized = view.desktop_size && (view.width != width || view.height != height);
            let at = if resized {
                16int
            } else {
                0
            };
            let client_w = if view.desktop_size {
                width
            } else {
                view.width as int
            };
            let client_h = if view.desktop_size {
                height
            } else {
                view.height as int
            };
            let w = if width <= client_w {
                width
            } else {
                client_w
            };
            let shown = if height <= client_h {
                height
            } else {
                client_h
            };
            let whole = pixels.len() as int / (4 * width);
            let h = if shown <= whole {
                shown
            } else {
                whole
            };
            &&& resized ==> is_rect(s, 0, width, height, 0xFFFF_FF21)
            &&& w == 0 || h == 0 ==> s.len() == at
            &&& w > 0 && h > 0 ==> is_rect(s, at, w, h, 0)
            &&& w > 0 && h > 0 ==> s.len() == at + 16 + h * (4 * w)
            &&& w > 0 && y < h && x < 4 * w ==> s[at + 16 + y * (4 * w) + x] == pixels[y * (4
                * width) + x]
        }),
{
    let width = packed_width(res) as int;
    let height = packed_height(res) as int;
    let after = told(view, res);
    let (w, h) = rect_size(after, res, pixels.len() as int);
    let n = pixels.len() as int;
    let s = update(view, res, pixels);
    assert(h * (4 * width) <= n && 0 <= h) by (nonlinear_arith)
        requires
            h <= n / (4 * width),
            width > 0,
            n >= 0,
            h >= 0 || h == n / (4 * width),
    ;
    rows_len(pixels, 4 * width, 4 * w, h);
    one_rect_is(width as u16, height as u16);
    one_rect_is(w as u16, h as u16);
    let change = if after != view {
        one_rect(width as u16, height as u16, (-223) as i32)
    } else {
        Seq::empty()
    };
    let at = change.len() as int;
    if w > 0 && h > 0 {
        let head = one_rect(w as u16, h as u16, 0);
        let body = rows(pixels, 4 * width, 4 * w, h);
        assert(s == change + head + body);
        assert forall|k: int| 0 <= k < 16 implies s[at + k] == head[k] by {}
        assert forall|k: int| 0 <= k < at implies s[k] == change[k] by {}
        assert forall|k: int| 0 <= k < body.len() implies s[at + 16 + k] == body[k] by {}
        if y < h && x < 4 * w {
            rows_are_sent_in_place(pixels, 4 * width, 4 * w, h, y, x);
            assert(s[at + 16 + (y * (4 * w) + x)] == pixels[y * (4 * width) + x]);
        }
    }
}

/// A display without a size sends nothing.
pub proof fn no_display_sends_nothing(view: ClientView, res: u32, pixels: Seq<u8>)
    requires
        res / 0x1_0000 == 0 || res % 0x1_0000 == 0,
    ensures
        update(view, res, pixels).len() == 0,
        told(view, res) == view,
{
}

/// Whether the stream `r` holds a message of `len` bytes at its front.
pub open spec fn has_message(r: Received, kind: u8, len: int) -> bool {
    r.bytes.len() >= len && len > 0 && r.bytes[0] == kind
}

/// Whether the message `msg` was taken off the front of `r`, with `len` bytes.
pub open spec fn takes(r: Received, len: int, msg: Msg) -> bool {
    next_message(r) == (
        Ok::<Option<Msg>, RfbError>(Some(msg)),
        Received { bytes: r.bytes.skip(len), ..r },
    )
}

/// The messages of a fixed length: a key in 8 bytes, the pointer in 6, a
/// request for an update in 10, and a pixel format in 20. Their numbers have
/// the highest byte first.
pub proof fn fixed_messages_are_read(r: Received)
    ensures
        ({
            let s = r.bytes;
            &&& has_message(r, 4, 8) ==> takes(
                r,
                8,
                Msg::KeyEvent { down: s[1] != 0, key: long_in(s, 4) as u32 },
            )
            &&& has_message(r, 5, 6) ==> takes(
                r,
                6,
                Msg::PointerEvent {
                    button_mask: s[1],
                    x: word_in(s, 2) as u16,
                    y: word_in(s, 4) as u16,
                },
            )
            &&& has_message(r, 3, 10) ==> takes(
                r,
                10,
                Msg::FbUpdateRequest {
                    incremental: s[1] != 0,
                    x: word_in(s, 2) as u16,
                    y: word_in(s, 4) as u16,
                    width: word_in(s, 6) as u16,
                    height: word_in(s, 8) as u16,
                },
            )
            &&& has_message(r, 0, 20) ==> takes(
                r,
                20,
                Msg::SetPixelFormat(
                    PixelFormat {
                        bits_per_pixel: s[4],
                        depth: s[5],
                        big_endian: s[6],
                        true_color: s[7],
                        red_max: word_in(s, 8) as u16,
                        green_max: word_in(s, 10) as u16,
                        blue_max: word_in(s, 12) as u16,
                        red_shift: s[14],
                        green_shift: s[15],
                        blue_shift: s[16],
                    },
                ),
            )
        }),
{
}

/// A list of encodings is as long as its count says, and its first 64 are
/// taken, each a signed number of four bytes.
pub proof fn encodings_are_read(r: Received, i: int)
    requires
        has_message(r, 2, 4 + 4 * word_in(r.bytes, 2)),
        r.bytes.len() >= 4,
    ensures
        ({
            let (answer, left) = next_message(r);
            let count = word_in(r.bytes, 2);
            let v = long_in(r.bytes, 4 + 4 * i);
            &&& left == (Received { bytes: r.bytes.skip(4 + 4 * count), ..r })
            &&& answer matches Ok(Some(Msg::SetEncodings(encs))) && {
                &&& encs.len() == if count <= 64 {
                    count
                } else {
                    64
                }
                &&& 0 <= i < encs.len() && v < 0x8000_0000 ==> encs[i] == v
                &&& 0 <= i < encs.len() && v >= 0x8000_0000 ==> encs[i] == v - 0x1_0000_0000
            }
        }),
{
}

/// Cut text is skipped whole, by the length in its header, and the first
/// mebibyte of it is kept.
pub proof fn cut_text_is_read(r: Received)
    requires
        has_message(r, 6, 8 + long_in(r.bytes, 4)),
    ensures
        ({
            let len = long_in(r.bytes, 4);
            let kept = if len <= 0x10_0000 {
                len
            } else {
                0x10_0000
            };
            takes(
                r,
                8 + len,
                Msg::CutText(super::rfb::utf8_lossy(r.bytes.subrange(8, 8 + kept))),
            )
        }),
{
}

/// A message of unknown type, 1 or above 6, is refused by its number and
/// nothing of it is taken. A message that has not come whole is waited for
/// while the client may send on.
pub proof fn other_bytes_are_kept(r: Received)
    requires
        r.bytes.len() > 0,
    ensures
        ({
            let kind = r.bytes[0];
            let known = kind == 0 || 2 <= kind <= 6;
            let short = r.bytes.len() < 4 || (kind == 4 && r.bytes.len() < 8) || (kind == 5
                && r.bytes.len() < 6) || (kind == 3 && r.bytes.len() < 10) || (kind == 0
                && r.bytes.len() < 20) || (kind == 6 && r.bytes.len() < 8) || (kind == 2
                && r.bytes.len() < 4 + 4 * word_in(r.bytes, 2));
            &&& !known ==> next_message(r) == (
                Err::<Option<Msg>, RfbError>(RfbError::UnknownMessageType(kind)),
                r,
            )
            &&& known && short && !r.ended ==> next_message(r) == (
                Err::<Option<Msg>, RfbError>(RfbError::WouldBlock),
                r,
            )
            &&& known && short && r.ended ==> next_message(r) == (
                Err::<Option<Msg>, RfbError>(RfbError::ClosedMidMessage),
                r,
            )
        }),
{
}

/// What each message asks of the server: an update, input for the guest with
/// the pointer scaled to the display, a note that the client follows size
/// changes exactly where it lists encoding -223, or nothing.
pub proof fn messages_are_dispatched(
    view: ClientView,
    res: u32,
    down: bool,
    key: u32,
    buttons: u8,
    x: u16,
    y: u16,
    encs: Seq<i32>,
    k: int,
)
    ensures
        dispatched(view, res, Msg::KeyEvent { down, key }) == (
            Request::Input(InputEvent::Key { down, keysym: key }),
            view,
        ),
        ({
            let (request, after) = dispatched(
                view,
                res,
                Msg::PointerEvent { button_mask: buttons, x, y },
            );
            &&& after == view
            &&& request matches Request::Input(InputEvent::Pointer { buttons: b, x: px, y: py })
                && b == buttons && px == scaled(x, (res / 0x1_0000) as u16) && py == scaled(
                y,
                (res % 0x1_0000) as u16,
            )
        }),
        ({
            let (request, after) = dispatched(view, res, Msg::SetEncodings(encs));
            &&& request == Request::Nothing
            &&& 0 <= k < encs.len() && encs[k] == -223 ==> after.desktop_size
            &&& after.desktop_size ==> exists|j: int| 0 <= j < encs.len() && encs[j] == -223
            &&& after.width == view.width && after.height == view.height
        }),
{
    let after = dispatched(view, res, Msg::SetEncodings(encs)).1;
    if after.desktop_size {
        let e = (-223) as i32;
        assert(encs.contains(e));
        let j = choose|j: int| 0 <= j < encs.len() && encs[j] == e;
        assert(encs[j] == -223);
    }
    if 0 <= k < encs.len() && encs[k] == -223 {
        let e = (-223) as i32;
        assert(encs[k] == e);
        assert(encs.contains(e));
    }
}

/// A position on a display of `extent` pixels is scaled to 0x7FFF at the last
/// one, rounded down.
pub proof fn scaling_rounds_down(v: u16, extent: u16)
    requires
        v < extent,
        extent >= 2,
    ensures
        scaled(v, extent) * (extent - 1) <= v * 0x7FFF < (scaled(v, extent) + 1) * (extent - 1),
{
    let last = extent - 1;
    let n = v * 0x7FFF;
    vstd::arithmetic::div_mod::lemma_fundamental_div_mod(n, last);
    vstd::arithmetic::div_mod::lemma_mod_bound(n, last);
    let q = n / last;
    assert(q * last == last * q && (q + 1) * last == last * q + last) by (nonlinear_arith);
    assert(q <= 0x7FFF) by (nonlinear_arith)
        requires
            q * last <= v * 0x7FFF,
            v <= last,
            last >= 1,
    ;
}

/// The bits of a password byte are turned around in the key: bit `j` becomes
/// bit `7 - j`. A short password is filled with zeros, and only the first
/// eight bytes of a long one count.
pub proof fn password_makes_the_key(password: Seq<u8>, i: int, j: u8)
    requires
        0 <= i < 8,
        j < 8,
    ensures
        ({
            let key = vnc_key(password);
            &&& key.len() == 8
            &&& i >= password.len() ==> key[i] == 0
            &&& i < password.len() ==> (key[i] >> j) & 1 == (password[i] >> ((7 - j) as u8)) & 1
            &&& password.len() > 8 ==> key == vnc_key(password.take(8))
        }),
{
    if i < password.len() {
        let b = password[i];
        let n = (7 - j) as u8;
        assert((reversed(b) >> j) & 1 == (b >> n) & 1) by (bit_vector)
            requires
                j < 8,
                n == 7 - j,
        ;
    }
    if password.len() > 8 {
        assert(vnc_key(password) =~= vnc_key(password.take(8)));
    }
}

/// The version that a client names is the number behind the point, or, of two
/// digits behind a sign. What is no number counts as 8.
pub proof fn version_is_its_number(v: Seq<u8>, n: int)
    requires
        v.len() == 12,
        0 <= n < 1000,
    ensures
        v[8] == 0x30 + n / 100 && v[9] == 0x30 + n / 10 % 10 && v[10] == 0x30 + n % 10
            ==> minor_version(v) == n,
        n < 100 && v[8] == 0x2B && v[9] == 0x30 + n / 10 && v[10] == 0x30 + n % 10
            ==> minor_version(v) == n,
        v[10] < 0x30 || v[10] > 0x39 ==> minor_version(v) == 8,
        v[9] < 0x30 || v[9] > 0x39 ==> minor_version(v) == 8,
        (v[8] < 0x30 || v[8] > 0x39) && v[8] != 0x2B ==> minor_version(v) == 8,
{
}

/// What a client is offered and how its choice is answered: type 1 without a
/// password and type 2 with one. Any other choice is refused with a failure
/// word, and with a password none but the challenge lets a client in.
pub proof fn security_follows_the_password(selected: u8, has_password: bool)
    ensures
        offered(has_password) == if has_password {
            2u8
        } else {
            1u8
        },
        selected == offered(has_password) && has_password ==> selection_verdict(
            selected,
            has_password,
        ) is None,
        selected == offered(has_password) && !has_password ==> selection_verdict(
            selected,
            has_password,
        ) == Some((Ok::<SecurityStep, RfbError>(SecurityStep::Accepted), 0u32)),
        selected != offered(has_password) ==> selection_verdict(selected, has_password) == Some(
            (
                Err::<SecurityStep, RfbError>(
                    if selected == 1 {
                        RfbError::AuthenticationRequired
                    } else if selected == 2 {
                        RfbError::VncAuthNotAvailable
                    } else {
                        RfbError::UnsupportedSecurityType(selected)
                    },
                ),
                1u32,
            ),
        ),
{
}

/// What a client reads at the start of a session: the security type behind its
/// version, then one result word, and behind its ClientInit the display's size
/// and pixel format: 32 bits of depth 24, little endian, with red, green and
/// blue from bits 16, 8 and 0.
pub proof fn handshake_is_sent(
    before: SessionView,
    password: Option<Seq<u8>>,
    res: u32,
    r: Result<Step, RfbError>,
    after: SessionView,
    sent: Seq<u8>,
)
    requires
        before.steps_to(password, res, r, after, sent),
    ensures
        before.phase is Version && before.received.bytes.len() >= 12 ==> {
            &&& sent.len() == 2
            &&& sent[0] == 1
            &&& sent[1] == if password is Some {
                2int
            } else {
                1
            }
            &&& after.received.bytes == before.received.bytes.skip(12)
            &&& after.phase is Security
        },
        before.phase is Security && before.received.bytes.len() >= 1 && password is None ==> {
            &&& sent.len() == 4
            &&& long_in(sent, 0) == if before.received.bytes[0] == 1 {
                0int
            } else {
                1
            }
            &&& after.phase is Init <==> before.received.bytes[0] == 1
            &&& r is Ok <==> before.received.bytes[0] == 1
        },
        before.phase is Security && before.received.bytes.len() >= 1 && password is Some
            && before.received.bytes[0] == 2 && r is Ok ==> {
            &&& sent.len() == 16
            &&& after.phase is Auth
            &&& after.phase->Auth_0@ == sent
        },
        before.phase is Auth && before.received.bytes.len() >= 16 ==> {
            &&& sent.len() == 4
            &&& r is Ok <==> after.phase is Init
            &&& long_in(sent, 0) == if r is Ok {
                0int
            } else {
                1
            }
            &&& after.received.bytes == before.received.bytes.skip(16)
        },
        before.phase is Init && before.received.bytes.len() >= 1 ==> {
            &&& sent.len() >= 24
            &&& word_in(sent, 0) == res / 0x1_0000
            &&& word_in(sent, 2) == res % 0x1_0000
            &&& sent.subrange(4, 20) == seq![
                32u8,
                24,
                0,
                1,
                0,
                255,
                0,
                255,
                0,
                255,
                16,
                8,
                0,
                0,
                0,
                0,
            ]
            &&& sent.len() - 24 <= u32::MAX ==> long_in(sent, 20) == sent.len() - 24
            &&& after.phase is Running
            &&& after.view.width == res / 0x1_0000
            &&& after.view.height == res % 0x1_0000
            &&& !after.view.desktop_size
        },
        before.phase is Running ==> sent.len() == 0,
{
    if before.phase is Init && before.received.bytes.len() >= 1 {
        let pf = PixelFormat::spec_xrgb8888().bytes();
        assert(sent.subrange(4, 20) =~= pf);
        assert(pf =~= seq![32u8, 24, 0, 1, 0, 255, 0, 255, 0, 255, 16, 8, 0, 0, 0, 0]);
    }
}

/// While the bytes of a step have not come nothing is sent and nothing is
/// lost: twelve for the version, sixteen for the answer to the challenge, one
/// for the choice and for ClientInit. A client that left is given up.
pub proof fn handshake_waits(
    before: SessionView,
    password: Option<Seq<u8>>,
    res: u32,
    r: Result<Step, RfbError>,
    after: SessionView,
    sent: Seq<u8>,
)
    requires
        before.steps_to(password, res, r, after, sent),
        ({
            let n = before.received.bytes.len();
            ||| before.phase is Version && n < 12
            ||| before.phase is Security && n < 1
            ||| before.phase is Auth && n < 16
            ||| before.phase is Init && n < 1
        }),
    ensures
        sent.len() == 0,
        !before.received.ended ==> r == Err::<Step, RfbError>(RfbError::WouldBlock) && after
            == before,
        before.received.ended ==> r == Err::<Step, RfbError>(RfbError::ClosedMidMessage)
            && after.phase is Ended,
{
}

/// What a running session makes of the next message: a request for an update
/// is remembered until it is answered, a key or the pointer goes to the guest,
/// a client that closed between messages has left, and an unknown message ends
/// the session.
pub proof fn running_session_takes_messages(before: SessionView, res: u32, msg: Msg, left: Received)
    requires
        before.phase is Running,
    ensures
        ({
            let (r, after) = before.ran(res);
            let next = next_message(before.received);
            let got = next == (Ok::<Option<Msg>, RfbError>(Some(msg)), left);
            &&& got ==> after.received == left && after.phase is Running
            &&& got && msg is FbUpdateRequest ==> after.update_requested && r == Ok::<
                Step,
                RfbError,
            >(Step::Advanced)
            &&& got && !(msg is FbUpdateRequest) ==> after.update_requested
                == before.update_requested
            &&& got && (msg is KeyEvent || msg is PointerEvent) ==> r is Ok && r->Ok_0 is Input
            &&& got && !(msg is KeyEvent || msg is PointerEvent) ==> r == Ok::<Step, RfbError>(
                Step::Advanced,
            )
            &&& got && !(msg is SetEncodings) ==> after.view == before.view
            &&& before.received.bytes.len() == 0 && before.received.ended ==> r == Ok::<
                Step,
                RfbError,
            >(Step::Closed)
            &&& before.received.bytes.len() == 0 && !before.received.ended ==> r == Err::<
                Step,
                RfbError,
            >(RfbError::WouldBlock) && after == before
            &&& before.received.bytes.len() > 0 && (before.received.bytes[0] == 1
                || before.received.bytes[0] > 6) ==> after.phase is Ended
        }),
{
}

/// A challenge is answered half by half under the password's key, so a
/// challenge with its halves swapped has the answer with its halves swapped.
pub proof fn challenge_is_answered_by_halves(password: Seq<u8>, a: Seq<u8>, b: Seq<u8>)
    requires
        a.len() == 8,
        b.len() == 8,
    ensures
        ({
            let first = super::rfb::des_block(vnc_key(password), a);
            let second = super::rfb::des_block(vnc_key(password), b);
            &&& super::rfb::vnc_response(password, a + b) == first + second
            &&& super::rfb::vnc_response(password, b + a) == second + first
        }),
{
    assert((a + b).subrange(0, 8) =~= a);
    assert((a + b).subrange(8, 16) =~= b);
    assert((b + a).subrange(0, 8) =~= b);
    assert((b + a).subrange(8, 16) =~= a);
}

/// Each step of the handshake takes its own bytes off the stream and leaves
/// what came behind them, and only ClientInit tells the client a size.
pub proof fn handshake_takes_its_bytes(
    before: SessionView,
    password: Option<Seq<u8>>,
    res: u32,
    r: Result<Step, RfbError>,
    after: SessionView,
    sent: Seq<u8>,
)
    requires
        before.steps_to(password, res, r, after, sent),
    ensures
        before.phase is Security && before.received.bytes.len() >= 1 ==> after.received.bytes
            == before.received.bytes.skip(1),
        before.phase is Init && before.received.bytes.len() >= 1 ==> after.received.bytes
            == before.received.bytes.skip(1),
        !(before.phase is Running) ==> after.received.ended == before.received.ended
            && after.update_requested == before.update_requested,
        !(before.phase is Running) && !(before.phase is Init) ==> after.view == before.view,
        before.phase is Ended ==> after == before && r is Err,
{
}

/// Bytes that come are put behind those that wait, and nothing else changes.
pub proof fn bytes_are_put_behind(s: SessionView, data: Seq<u8>)
    ensures
        s.fed(data).received.bytes == s.received.bytes + data,
        s.fed(data).received.ended == s.received.ended,
        s.fed(data).phase == s.phase && s.fed(data).view == s.view,
        s.closed().received.ended,
        s.closed().received.bytes == s.received.bytes,
        s.closed().phase == s.phase,
{
}

/// How an error looks to the owner of the socket: a client that left in the
/// middle of a message is an ordinary disconnect and no other error of the
/// protocol is, the refusals of a password are refusals of permission, and
/// only a message that has not come whole is waited for.
pub proof fn errors_are_told_apart(e: RfbError, expected: bool, waits: bool)
    requires
        call_ensures(super::vnc::is_expected_disconnect, (e.spec_kind(),), expected),
        call_ensures(super::rfb::is_read_timeout, (e.spec_kind(),), waits),
    ensures
        expected <==> e == RfbError::ClosedMidMessage,
        waits <==> e == RfbError::WouldBlock,
        e.spec_kind() == super::rfb::ErrorKind::PermissionDenied <==> e
            == RfbError::AuthenticationRequired || e == RfbError::VncAuthNotAvailable || e
            == RfbError::VncAuthFailed,
        e.spec_kind() == super::rfb::ErrorKind::InvalidData <==> e is UnsupportedSecurityType
            || e is UnknownMessageType,
{
}

/// A read that failed is tried again while it was only interrupted, or while a
/// message that was begun has waited less than five seconds; between messages
/// a read may come up empty, and everything else ends the client.
pub proof fn failed_reads_are_judged(
    kind: super::rfb::ErrorKind,
    mid_message: bool,
    waited_ms: u64,
    r: super::rfb::ReadStep,
)
    requires
        call_ensures(super::rfb::after_failed_read, (kind, mid_message, waited_ms), r),
    ensures
        ({
            let slow = kind == super::rfb::ErrorKind::WouldBlock || kind
                == super::rfb::ErrorKind::TimedOut;
            let interrupted = kind == super::rfb::ErrorKind::Interrupted;
            &&& r == super::rfb::ReadStep::Retry <==> interrupted || (slow && mid_message
                && waited_ms < 5000)
            &&& r == super::rfb::ReadStep::Idle <==> slow && !mid_message
            &&& r == super::rfb::ReadStep::Fail <==> !interrupted && !(slow && !mid_message)
                && !(slow && waited_ms < 5000)
        }),
{
}

/// The server names its protocol as version 3.8.
pub proof fn server_speaks_three_eight(v: Seq<u8>)
    requires
        v == super::rfb::RFB_VERSION@,
    ensures
        v.len() == 12,
        v[0] == 0x52 && v[1] == 0x46 && v[2] == 0x42 && v[3] == 0x20,
        minor_version(v) == 8,
        v[4] == 0x30 && v[5] == 0x30 && v[6] == 0x33 && v[7] == 0x2E,
        v[8] == 0x30 && v[9] == 0x30 && v[10] == 0x38 && v[11] == 0x0A,
{
}

} // verus!
