//! RFB (Remote Framebuffer) protocol codec for VNC.
//!
//! The subset of RFB 3.8 (RFC 6143) that the VNC server uses: version
//! handshake, security negotiation, server init, framebuffer updates with
//! Raw encoding, and client message parsing.
//!
//! The functions work on bytes that have come ([`ClientStream`]) and bytes to
//! send. A caller that lacks bytes is told so and nothing is taken, so a
//! message is never cut in two.

use des::cipher::{BlockEncrypt, KeyInit};
use vstd::prelude::*;
use vstd::string::*;
use vstd::utf8::*;

use super::stream::{starts_long_cut, ClientStream, Received, CUT_TEXT_CAP, CUT_TEXT_HEADER};
use crate::bytes::{
    be16, be16_bytes, be32, be32_bytes, get_be16, get_be32, put_be16, put_be32, put_bytes,
    sub_bytes,
};

verus! {

// ---- Protocol version ------------------------------------------------------

/// RFB protocol version string sent by the server: "RFB 003.008\n".
pub const RFB_VERSION: [u8; 12] = [
    0x52,
    0x46,
    0x42,
    0x20,
    0x30,
    0x30,
    0x33,
    0x2E,
    0x30,
    0x30,
    0x38,
    0x0A,
];

// ---- Security types --------------------------------------------------------

/// No authentication required.
pub const SECURITY_NONE: u8 = 1;

/// VNC password authentication (DES challenge-response).
pub const SECURITY_VNC_AUTH: u8 = 2;

/// SecurityResult: OK.
pub const SECURITY_RESULT_OK: u32 = 0;

/// SecurityResult: Failed.
pub const SECURITY_RESULT_FAILED: u32 = 1;

// ---- Server-to-client message types ----------------------------------------

pub const SERVER_FRAMEBUFFER_UPDATE: u8 = 0;

pub const SERVER_SET_COLOUR_MAP: u8 = 1;

pub const SERVER_BELL: u8 = 2;

pub const SERVER_CUT_TEXT: u8 = 3;

// ---- Client-to-server message types ----------------------------------------

pub const CLIENT_SET_PIXEL_FORMAT: u8 = 0;

pub const CLIENT_SET_ENCODINGS: u8 = 2;

pub const CLIENT_FB_UPDATE_REQUEST: u8 = 3;

pub const CLIENT_KEY_EVENT: u8 = 4;

pub const CLIENT_POINTER_EVENT: u8 = 5;

pub const CLIENT_CUT_TEXT: u8 = 6;

// ---- Encoding types --------------------------------------------------------

pub const ENCODING_RAW: i32 = 0;

/// DesktopSize pseudo-encoding: a client that lists it accepts a new
/// framebuffer size in a rectangle header.
pub const ENCODING_DESKTOP_SIZE: i32 = -223;

/// The most encodings of one SetEncodings that are kept.
pub const MAX_ENCODINGS: usize = 64;

/// How long a message body may take once its type byte has come, in
/// milliseconds.
pub const BODY_DEADLINE_MS: u64 = 5000;

// ---- Errors ----------------------------------------------------------------

/// The kind of an error on a client's connection.
#[derive(Debug, Clone, Copy, PartialEq, Eq, Structural)]
pub enum ErrorKind {
    WouldBlock,
    TimedOut,
    Interrupted,
    UnexpectedEof,
    PermissionDenied,
    InvalidData,
    ConnectionReset,
    BrokenPipe,
    Other,
}

/// What went wrong with a client.
#[derive(Debug, Clone, Copy, PartialEq, Eq, Structural)]
pub enum RfbError {
    /// More bytes have to come first.
    WouldBlock,
    /// The client closed its end in the middle of a message.
    ClosedMidMessage,
    /// The client tried to bypass VNC authentication.
    AuthenticationRequired,
    /// The client selected VNC authentication, which was not offered.
    VncAuthNotAvailable,
    UnsupportedSecurityType(u8),
    /// The client's answer to the challenge is wrong.
    VncAuthFailed,
    /// The operating system gave no random challenge.
    NoEntropy,
    UnknownMessageType(u8),
}

impl RfbError {
    pub open spec fn spec_kind(self) -> ErrorKind {
        match self {
            RfbError::WouldBlock => ErrorKind::WouldBlock,
            RfbError::ClosedMidMessage => ErrorKind::UnexpectedEof,
            RfbError::AuthenticationRequired => ErrorKind::PermissionDenied,
            RfbError::VncAuthNotAvailable => ErrorKind::PermissionDenied,
            RfbError::UnsupportedSecurityType(_) => ErrorKind::InvalidData,
            RfbError::VncAuthFailed => ErrorKind::PermissionDenied,
            RfbError::NoEntropy => ErrorKind::Other,
            RfbError::UnknownMessageType(_) => ErrorKind::InvalidData,
        }
    }

    pub fn kind(&self) -> (r: ErrorKind)
        ensures
            r == self.spec_kind(),
    {
        match self {
            RfbError::WouldBlock => ErrorKind::WouldBlock,
            RfbError::ClosedMidMessage => ErrorKind::UnexpectedEof,
            RfbError::AuthenticationRequired => ErrorKind::PermissionDenied,
            RfbError::VncAuthNotAvailable => ErrorKind::PermissionDenied,
            RfbError::UnsupportedSecurityType(_) => ErrorKind::InvalidData,
            RfbError::VncAuthFailed => ErrorKind::PermissionDenied,
            RfbError::NoEntropy => ErrorKind::Other,
            RfbError::UnknownMessageType(_) => ErrorKind::InvalidData,
        }
    }
}

// ---- PixelFormat -----------------------------------------------------------

/// RFB pixel format descriptor (16 bytes on the wire).
///
/// The server uses XRGB8888: 32 bpp, depth 24, little-endian, true-color,
/// with R at bits 16-23, G at bits 8-15, B at bits 0-7.
#[derive(Debug, Clone, Copy, PartialEq, Eq, Structural)]
pub struct PixelFormat {
    pub bits_per_pixel: u8,
    pub depth: u8,
    pub big_endian: u8,
    pub true_color: u8,
    pub red_max: u16,
    pub green_max: u16,
    pub blue_max: u16,
    pub red_shift: u8,
    pub green_shift: u8,
    pub blue_shift: u8,
}

impl PixelFormat {
    pub open spec fn spec_xrgb8888() -> PixelFormat {
        PixelFormat {
            bits_per_pixel: 32,
            depth: 24,
            big_endian: 0,
            true_color: 1,
            red_max: 255,
            green_max: 255,
            blue_max: 255,
            red_shift: 16,
            green_shift: 8,
            blue_shift: 0,
        }
    }

    /// The format's 16 bytes on the wire, the last three of them padding.
    pub open spec fn bytes(self) -> Seq<u8> {
        seq![self.bits_per_pixel, self.depth, self.big_endian, self.true_color] + be16_bytes(
            self.red_max,
        ) + be16_bytes(self.green_max) + be16_bytes(self.blue_max) + seq![
            self.red_shift,
            self.green_shift,
            self.blue_shift,
            0u8,
            0u8,
            0u8,
        ]
    }

    /// The format in the 16 bytes of `s` at `at`.
    pub open spec fn of_bytes(s: Seq<u8>, at: int) -> PixelFormat {
        PixelFormat {
            bits_per_pixel: s[at],
            depth: s[at + 1],
            big_endian: s[at + 2],
            true_color: s[at + 3],
            red_max: be16(s, at + 4),
            green_max: be16(s, at + 6),
            blue_max: be16(s, at + 8),
            red_shift: s[at + 10],
            green_shift: s[at + 11],
            blue_shift: s[at + 12],
        }
    }

    /// Default pixel format: XRGB8888, little-endian.
    pub fn xrgb8888() -> (r: Self)
        ensures
            r == Self::spec_xrgb8888(),
    {
        PixelFormat {
            bits_per_pixel: 32,
            depth: 24,
            big_endian: 0,
            true_color: 1,
            red_max: 255,
            green_max: 255,
            blue_max: 255,
            red_shift: 16,
            green_shift: 8,
            blue_shift: 0,
        }
    }

    /// Serialize the pixel format to 16 bytes (wire format).
    pub fn to_bytes(&self) -> (r: [u8; 16])
        ensures
            r@ == self.bytes(),
    {
        let r = [
            self.bits_per_pixel,
            self.depth,
            self.big_endian,
            self.true_color,
            (self.red_max / 0x100) as u8,
            (self.red_max % 0x100) as u8,
            (self.green_max / 0x100) as u8,
            (self.green_max % 0x100) as u8,
            (self.blue_max / 0x100) as u8,
            (self.blue_max % 0x100) as u8,
            self.red_shift,
            self.green_shift,
            self.blue_shift,
            0,
            0,
            0,
        ];
        assert(r@ =~= self.bytes());
        r
    }

    /// Parse a pixel format from 16 bytes (wire format).
    pub fn from_bytes(buf: &[u8; 16]) -> (r: Self)
        ensures
            r == Self::of_bytes(buf@, 0),
    {
        Self::read_at(buf, 0)
    }

    fn read_at(buf: &[u8], at: usize) -> (r: Self)
        requires
            at + 16 <= buf@.len(),
        ensures
            r == Self::of_bytes(buf@, at as int),
    {
        let _size: usize = buf.len();
        PixelFormat {
            bits_per_pixel: buf[at],
            depth: buf[at + 1],
            big_endian: buf[at + 2],
            true_color: buf[at + 3],
            red_max: get_be16(buf, at + 4),
            green_max: get_be16(buf, at + 6),
            blue_max: get_be16(buf, at + 8),
            red_shift: buf[at + 10],
            green_shift: buf[at + 11],
            blue_shift: buf[at + 12],
        }
    }
}

/// A pixel format survives its bytes on the wire.
pub proof fn pixel_format_round_trip(pf: PixelFormat)
    ensures
        pf.bytes().len() == 16,
        PixelFormat::of_bytes(pf.bytes(), 0) == pf,
{
}

// ---- Handshake helpers -----------------------------------------------------

pub open spec fn is_digit(b: u8) -> bool {
    0x30 <= b <= 0x39
}

/// The number that the three bytes before the newline of a version string
/// spell, with a leading plus sign allowed. Anything else counts as 8.
pub open spec fn minor_version(v: Seq<u8>) -> u16 {
    if is_digit(v[9]) && is_digit(v[10]) && is_digit(v[8]) {
        (100 * (v[8] - 0x30) + 10 * (v[9] - 0x30) + (v[10] - 0x30)) as u16
    } else if is_digit(v[9]) && is_digit(v[10]) && v[8] == 0x2B {
        (10 * (v[9] - 0x30) + (v[10] - 0x30)) as u16
    } else {
        8
    }
}

/// What a stage that needs `n` bytes does before they have come.
pub open spec fn starved(r: Received) -> RfbError {
    if r.ended {
        RfbError::ClosedMidMessage
    } else {
        RfbError::WouldBlock
    }
}

pub open spec fn skipped(r: Received, n: int) -> Received {
    Received { bytes: r.bytes.skip(n), ..r }
}

fn starvation(input: &ClientStream) -> (r: RfbError)
    ensures
        r == starved(input@),
{
    if input.is_ended() {
        RfbError::ClosedMidMessage
    } else {
        RfbError::WouldBlock
    }
}

/// Send the server's version string, the first thing on a connection.
pub fn send_version(out: &mut Vec<u8>)
    ensures
        final(out)@ == old(out)@ + RFB_VERSION@,
{
    put_bytes(out, &RFB_VERSION);
}

/// Read the client's version string and return its minor version number.
///
/// The server accepts any 3.x client but always speaks 3.8.
pub fn handshake_version(stream: &mut ClientStream) -> (r: Result<u16, RfbError>)
    requires
        old(stream).wf(),
        !old(stream).is_framed(),
    ensures
        final(stream).wf(),
        !final(stream).is_framed(),
        old(stream)@.bytes.len() >= 12 ==> r == Ok::<u16, RfbError>(
            minor_version(old(stream)@.bytes),
        ) && final(stream)@ == skipped(old(stream)@, 12),
        old(stream)@.bytes.len() < 12 ==> r == Err::<u16, RfbError>(starved(old(stream)@))
            && final(stream)@ == old(stream)@,
{
    match stream.take(12) {
        Some(v) => {
            let (a, b, c) = (v[8], v[9], v[10]);
            let tail = 0x30 <= b && b <= 0x39 && 0x30 <= c && c <= 0x39;
            if tail && 0x30 <= a && a <= 0x39 {
                Ok(100 * (a - 0x30) as u16 + 10 * (b - 0x30) as u16 + (c - 0x30) as u16)
            } else if tail && a == 0x2B {
                Ok(10 * (b - 0x30) as u16 + (c - 0x30) as u16)
            } else {
                Ok(8)
            }
        },
        None => Err(starvation(stream)),
    }
}

/// The security type that the server offers.
pub open spec fn offered(has_password: bool) -> u8 {
    if has_password {
        SECURITY_VNC_AUTH
    } else {
        SECURITY_NONE
    }
}

/// Send the security type list. With a password only VncAuth is offered,
/// without one only None.
pub fn send_security_types(has_password: bool, out: &mut Vec<u8>)
    ensures
        final(out)@ == old(out)@ + seq![1u8, offered(has_password)],
{
    out.push(1);
    out.push(
        if has_password {
            SECURITY_VNC_AUTH
        } else {
            SECURITY_NONE
        },
    );
    assert(out@ =~= old(out)@ + seq![1u8, offered(has_password)]);
}

/// Where the security handshake stands once the client has chosen.
#[derive(Debug, Clone, Copy, PartialEq, Eq)]
pub enum SecurityStep {
    /// The client is in.
    Accepted,
    /// The client has to answer the challenge that was sent.
    Challenged([u8; 16]),
}

/// The answer to a selection that needs no challenge: the result or the error
/// and the SecurityResult word that goes with it. `None` is the selection
/// that is answered with a challenge.
pub open spec fn selection_verdict(selected: u8, has_password: bool) -> Option<
    (Result<SecurityStep, RfbError>, u32),
> {
    if selected == SECURITY_NONE {
        if has_password {
            Some((Err(RfbError::AuthenticationRequired), SECURITY_RESULT_FAILED))
        } else {
            Some((Ok(SecurityStep::Accepted), SECURITY_RESULT_OK))
        }
    } else if selected == SECURITY_VNC_AUTH {
        if has_password {
            None
        } else {
            Some((Err(RfbError::VncAuthNotAvailable), SECURITY_RESULT_FAILED))
        }
    } else {
        Some((Err(RfbError::UnsupportedSecurityType(selected)), SECURITY_RESULT_FAILED))
    }
}

/// With a password no selection lets a client in: each is refused, and told
/// so, but the one that is answered with a challenge.
pub proof fn password_is_always_asked(selected: u8)
    ensures
        selection_verdict(selected, true) is None <==> selected == SECURITY_VNC_AUTH,
        selection_verdict(selected, true) matches Some((r, word)) ==> r is Err && word
            == SECURITY_RESULT_FAILED,
{
}

/// Read the client's selected security type and answer it.
///
/// A client that takes VncAuth with a password configured is sent a random
/// challenge, and is let in by [`vnc_auth_challenge`].
pub fn handshake_security(
    stream: &mut ClientStream,
    out: &mut Vec<u8>,
    has_password: bool,
) -> (r: Result<SecurityStep, RfbError>)
    requires
        old(stream).wf(),
        !old(stream).is_framed(),
    ensures
        final(stream).wf(),
        !final(stream).is_framed(),
        old(stream)@.bytes.len() == 0 ==> r == Err::<SecurityStep, RfbError>(
            starved(old(stream)@),
        ) && final(stream)@ == old(stream)@ && final(out)@ == old(out)@,
        old(stream)@.bytes.len() > 0 ==> {
            &&& final(stream)@ == skipped(old(stream)@, 1)
            &&& match selection_verdict(old(stream)@.bytes[0], has_password) {
                Some(v) => r == v.0 && final(out)@ == old(out)@ + be32_bytes(v.1),
                None => exists|random: Result<[u8; 16], getrandom::Error>| #[trigger]
                    drawn(random) && match random {
                        Ok(c) => r == Ok::<SecurityStep, RfbError>(SecurityStep::Challenged(c))
                            && final(out)@ == old(out)@ + c@,
                        Err(_) => r == Err::<SecurityStep, RfbError>(RfbError::NoEntropy)
                            && final(out)@ == old(out)@,
                    },
            }
        },
{
    let selected: u8 = match stream.take(1) {
        Some(v) => v[0],
        None => {
            return Err(starvation(stream));
        },
    };
    if selected == SECURITY_NONE {
        if !has_password {
            // Only when no password is configured.
            put_be32(out, SECURITY_RESULT_OK);
            Ok(SecurityStep::Accepted)
        } else {
            // The client tried to bypass VNC auth.
            put_be32(out, SECURITY_RESULT_FAILED);
            Err(RfbError::AuthenticationRequired)
        }
    } else if selected == SECURITY_VNC_AUTH {
        if has_password {
            let random = random_challenge();
            assert(drawn(random));
            send_challenge(random, out)
        } else {
            // The client selected VncAuth, which was not offered.
            put_be32(out, SECURITY_RESULT_FAILED);
            Err(RfbError::VncAuthNotAvailable)
        }
    } else {
        put_be32(out, SECURITY_RESULT_FAILED);
        Err(RfbError::UnsupportedSecurityType(selected))
    }
}

/// An error of the operating system's random number source.
#[verifier::external_type_specification]
#[verifier::external_body]
pub struct ExRandomError(getrandom::Error);

/// Whether the operating system's random number source gave `random`.
pub closed spec fn drawn(random: Result<[u8; 16], getrandom::Error>) -> bool {
    call_ensures(random_challenge, (), random)
}

/// `getrandom::fill` on 16 bytes: the bytes it wrote, or its error.
///
/// The bytes are random, so nothing is claimed of them.
#[verifier::external_body]
fn random_challenge() -> (r: Result<[u8; 16], getrandom::Error>) {
    let mut challenge = [0u8; 16];
    match getrandom::fill(&mut challenge) {
        Ok(()) => Ok(challenge),
        Err(e) => Err(e),
    }
}

/// Send the challenge that the random number source gave. Without one the
/// client cannot be let in.
pub fn send_challenge(random: Result<[u8; 16], getrandom::Error>, out: &mut Vec<u8>) -> (r: Result<
    SecurityStep,
    RfbError,
>)
    ensures
        match random {
            Ok(c) => r == Ok::<SecurityStep, RfbError>(SecurityStep::Challenged(c))
                && final(out)@ == old(out)@ + c@,
            Err(_) => r == Err::<SecurityStep, RfbError>(RfbError::NoEntropy) && final(out)@
                == old(out)@,
        },
{
    match random {
        Ok(c) => {
            put_bytes(out, &c);
            Ok(SecurityStep::Challenged(c))
        },
        Err(_) => Err(RfbError::NoEntropy),
    }
}

/// VNC DES challenge-response authentication.
///
/// Reads the 16-byte response to `challenge` and verifies it against the
/// password using DES encryption.
pub fn vnc_auth_challenge(
    stream: &mut ClientStream,
    out: &mut Vec<u8>,
    password: &str,
    challenge: &[u8; 16],
) -> (r: Result<(), RfbError>)
    requires
        old(stream).wf(),
        !old(stream).is_framed(),
    ensures
        final(stream).wf(),
        !final(stream).is_framed(),
        old(stream)@.bytes.len() < 16 ==> r == Err::<(), RfbError>(starved(old(stream)@))
            && final(stream)@ == old(stream)@ && final(out)@ == old(out)@,
        old(stream)@.bytes.len() >= 16 ==> {
            let right = old(stream)@.bytes.take(16) == vnc_response(
                password.spec_bytes(),
                challenge@,
            );
            &&& final(stream)@ == skipped(old(stream)@, 16)
            &&& right ==> r == Ok::<(), RfbError>(()) && final(out)@ == old(out)@ + be32_bytes(
                SECURITY_RESULT_OK,
            )
            &&& !right ==> r == Err::<(), RfbError>(RfbError::VncAuthFailed) && final(out)@
                == old(out)@ + be32_bytes(SECURITY_RESULT_FAILED)
        },
{
    match stream.take(16) {
        Some(response) => {
            let expected = vnc_des_encrypt(password, challenge);
            auth_verdict(response.as_slice(), &expected, out)
        },
        None => Err(starvation(stream)),
    }
}

/// Let the client in if its response is the one expected.
pub fn auth_verdict(response: &[u8], expected: &[u8; 16], out: &mut Vec<u8>) -> (r: Result<
    (),
    RfbError,
>)
    ensures
        response@ == expected@ ==> r == Ok::<(), RfbError>(()) && final(out)@ == old(out)@
            + be32_bytes(SECURITY_RESULT_OK),
        response@ != expected@ ==> r == Err::<(), RfbError>(RfbError::VncAuthFailed) &&
        final(out)@ == old(out)@ + be32_bytes(SECURITY_RESULT_FAILED),
{
    if same_bytes(response, expected) {
        put_be32(out, SECURITY_RESULT_OK);
        Ok(())
    } else {
        put_be32(out, SECURITY_RESULT_FAILED);
        Err(RfbError::VncAuthFailed)
    }
}

fn same_bytes(a: &[u8], b: &[u8]) -> (r: bool)
    ensures
        r == (a@ == b@),
{
    if a.len() != b.len() {
        return false;
    }
    let mut i: usize = 0;
    while i < a.len()
        invariant
            i <= a@.len(),
            a@.len() == b@.len(),
            a@.take(i as int) == b@.take(i as int),
        decreases a@.len() - i,
    {
        if a[i] != b[i] {
            assert(a@ != b@);
            return false;
        }
        i += 1;
        assert(a@.take(i as int) =~= a@.take(i - 1).push(a@[i - 1]));
        assert(b@.take(i as int) =~= b@.take(i - 1).push(b@[i - 1]));
    }
    assert(a@.take(i as int) =~= a@);
    assert(b@.take(i as int) =~= b@);
    true
}

/// One DES block: `block` encrypted under `key`, both of eight bytes.
pub uninterp spec fn des_block(key: Seq<u8>, block: Seq<u8>) -> Seq<u8>;

/// `des::Des::encrypt_block` with the key schedule of `des::Des::new`: the
/// block encrypted under the key, which depends on nothing else.
#[verifier::external_body]
fn des_encrypt(key: &[u8; 8], block: &[u8; 8]) -> (r: [u8; 8])
    ensures
        r@ == des_block(key@, block@),
{
    let cipher = des::Des::new(&(*key).into());
    let mut data = (*block).into();
    cipher.encrypt_block(&mut data);
    data.into()
}

/// The bit-reversed byte: bit `i` moves to bit `7 - i`.
pub open spec fn reversed(b: u8) -> u8 {
    (b % 2 * 128 + b / 2 % 2 * 64 + b / 4 % 2 * 32 + b / 8 % 2 * 16 + b / 16 % 2 * 8 + b / 32 % 2
        * 4 + b / 64 % 2 * 2 + b / 128) as u8
}

/// The DES key of a password: its first eight bytes, each with its bits
/// reversed, and zeros where the password is shorter.
pub open spec fn vnc_key(password: Seq<u8>) -> Seq<u8> {
    Seq::new(8, |i: int| if i < password.len() { reversed(password[i]) } else { 0u8 })
}

/// The response that proves knowledge of the password: each half of the
/// challenge encrypted under its key.
pub open spec fn vnc_response(password: Seq<u8>, challenge: Seq<u8>) -> Seq<u8> {
    des_block(vnc_key(password), challenge.subrange(0, 8)) + des_block(
        vnc_key(password),
        challenge.subrange(8, 16),
    )
}

/// VNC DES encryption: encrypt the challenge with the password.
///
/// Per the RFB protocol, the password is truncated/padded to 8 bytes,
/// each byte is bit-reversed (VNC convention), and the result is used
/// as a DES-ECB key to encrypt each 8-byte half of the 16-byte challenge.
pub fn vnc_des_encrypt(password: &str, challenge: &[u8; 16]) -> (r: [u8; 16])
    ensures
        r@ == vnc_response(password.spec_bytes(), challenge@),
{
    let key = key_of_password(password.as_bytes());
    let c = challenge;
    let first_half = [c[0], c[1], c[2], c[3], c[4], c[5], c[6], c[7]];
    let second_half = [c[8], c[9], c[10], c[11], c[12], c[13], c[14], c[15]];
    assert(first_half@ =~= challenge@.subrange(0, 8));
    assert(second_half@ =~= challenge@.subrange(8, 16));
    // Encrypt each 8-byte half separately (RFB protocol)
    let a = des_encrypt(&key, &first_half);
    let b = des_encrypt(&key, &second_half);
    join_halves(&a, &b)
}

/// Both halves of a response, one behind the other.
pub fn join_halves(a: &[u8; 8], b: &[u8; 8]) -> (r: [u8; 16])
    ensures
        r@ == a@ + b@,
{
    let r = [
        a[0],
        a[1],
        a[2],
        a[3],
        a[4],
        a[5],
        a[6],
        a[7],
        b[0],
        b[1],
        b[2],
        b[3],
        b[4],
        b[5],
        b[6],
        b[7],
    ];
    assert(r@ =~= a@ + b@);
    r
}

/// The DES key of a password's bytes.
pub fn key_of_password(password: &[u8]) -> (key: [u8; 8])
    ensures
        key@ == vnc_key(password@),
{
    let mut key: [u8; 8] = [0, 0, 0, 0, 0, 0, 0, 0];
    let mut i: usize = 0;
    while i < 8 && i < password.len()
        invariant
            i <= 8,
            i <= password@.len(),
            forall|k: int| 0 <= k < i ==> #[trigger] key@[k] == reversed(password@[k]),
            forall|k: int| i <= k < 8 ==> #[trigger] key@[k] == 0,
        decreases 8 - i,
    {
        // VNC reverses the bits in each key byte
        key[i] = reverse_bits(password[i]);
        i += 1;
    }
    assert(key@ =~= vnc_key(password@));
    key
}

/// Reverse the bits in a byte (VNC DES key mangling).
pub fn reverse_bits(b: u8) -> (r: u8)
    ensures
        r == reversed(b),
{
    b % 2 * 128 + b / 2 % 2 * 64 + b / 4 % 2 * 32 + b / 8 % 2 * 16 + b / 16 % 2 * 8 + b / 32 % 2 * 4
        + b / 64 % 2 * 2 + b / 128
}

/// Reversing the bits twice gives the byte back.
pub proof fn reverse_bits_twice(b: u8)
    ensures
        reversed(reversed(b)) == b,
{
    assert(reversed(reversed(b)) == b) by (bit_vector);
}

/// The ServerInit message: dimensions, pixel format, and desktop name.
pub open spec fn server_init(width: u16, height: u16, pf: PixelFormat, name: Seq<u8>) -> Seq<u8> {
    be16_bytes(width) + be16_bytes(height) + pf.bytes() + be32_bytes(name.len() as u32) + name
}

/// Send the ServerInit message.
///
/// Contains framebuffer dimensions, pixel format, and desktop name.
pub fn send_server_init(
    out: &mut Vec<u8>,
    width: u16,
    height: u16,
    pf: &PixelFormat,
    name: &str,
)
    ensures
        final(out)@ == old(out)@ + server_init(width, height, *pf, name.spec_bytes()),
{
    let name_bytes = name.as_bytes();
    put_be16(out, width);
    put_be16(out, height);
    put_bytes(out, &pf.to_bytes());
    put_be32(out, name_bytes.len() as u32);
    put_bytes(out, name_bytes);
    assert(out@ =~= old(out)@ + server_init(width, height, *pf, name.spec_bytes()));
}

/// Read the ClientInit message (1 byte: shared-flag).
pub fn read_client_init(stream: &mut ClientStream) -> (r: Result<u8, RfbError>)
    requires
        old(stream).wf(),
        !old(stream).is_framed(),
    ensures
        final(stream).wf(),
        !final(stream).is_framed(),
        old(stream)@.bytes.len() > 0 ==> r == Ok::<u8, RfbError>(old(stream)@.bytes[0])
            && final(stream)@ == skipped(old(stream)@, 1),
        old(stream)@.bytes.len() == 0 ==> r == Err::<u8, RfbError>(starved(old(stream)@))
            && final(stream)@ == old(stream)@,
{
    match stream.take(1) {
        Some(v) => Ok(v[0]),
        None => Err(starvation(stream)),
    }
}

// ---- Server-to-client message writers --------------------------------------

/// Header for a FramebufferUpdate rectangle.
#[derive(Debug, Clone, Copy, PartialEq, Eq, Structural)]
pub struct RectHeader {
    pub x: u16,
    pub y: u16,
    pub width: u16,
    pub height: u16,
    pub encoding: i32,
}

/// The bits of a signed word as an unsigned one.
pub open spec fn unsigned(v: i32) -> u32 {
    if v >= 0 {
        v as u32
    } else {
        (v + 0x1_0000_0000) as u32
    }
}

/// The signed word with the bits of `v`.
pub open spec fn signed(v: u32) -> i32 {
    if v < 0x8000_0000 {
        v as i32
    } else {
        (v - 0x1_0000_0000) as i32
    }
}

fn to_unsigned(v: i32) -> (r: u32)
    ensures
        r == unsigned(v),
{
    if v >= 0 {
        v as u32
    } else {
        (v as i64 + 0x1_0000_0000) as u32
    }
}

fn to_signed(v: u32) -> (r: i32)
    ensures
        r == signed(v),
{
    if v < 0x8000_0000 {
        v as i32
    } else {
        (v as i64 - 0x1_0000_0000) as i32
    }
}

impl RectHeader {
    /// The header's 12 bytes on the wire.
    pub open spec fn bytes(self) -> Seq<u8> {
        be16_bytes(self.x) + be16_bytes(self.y) + be16_bytes(self.width) + be16_bytes(self.height)
            + be32_bytes(unsigned(self.encoding))
    }

    /// Serialize to 12 bytes (wire format).
    pub fn to_bytes(&self) -> (r: [u8; 12])
        ensures
            r@ == self.bytes(),
    {
        let e: u32 = to_unsigned(self.encoding);
        let r = [
            (self.x / 0x100) as u8,
            (self.x % 0x100) as u8,
            (self.y / 0x100) as u8,
            (self.y % 0x100) as u8,
            (self.width / 0x100) as u8,
            (self.width % 0x100) as u8,
            (self.height / 0x100) as u8,
            (self.height % 0x100) as u8,
            (e / 0x100_0000) as u8,
            (e / 0x1_0000 % 0x100) as u8,
            (e / 0x100 % 0x100) as u8,
            (e % 0x100) as u8,
        ];
        assert(r@ =~= self.bytes());
        r
    }
}

/// A FramebufferUpdate message header for `num_rects` rectangles.
pub open spec fn fb_update_header(num_rects: u16) -> Seq<u8> {
    seq![SERVER_FRAMEBUFFER_UPDATE, 0u8] + be16_bytes(num_rects)
}

/// Write a FramebufferUpdate message header.
///
/// After this, the caller writes `num_rects` rectangle headers + pixel data.
pub fn write_fb_update_header(out: &mut Vec<u8>, num_rects: u16)
    ensures
        final(out)@ == old(out)@ + fb_update_header(num_rects),
{
    out.push(SERVER_FRAMEBUFFER_UPDATE);
    out.push(0);
    put_be16(out, num_rects);
    assert(out@ =~= old(out)@ + fb_update_header(num_rects));
}

// ---- Client-to-server message readers --------------------------------------

/// A parsed client message.
#[derive(Debug)]
pub enum ClientMessage {
    /// SetPixelFormat: the client wants a different pixel format.
    SetPixelFormat(PixelFormat),
    /// SetEncodings: list of encoding types the client supports.
    SetEncodings(Vec<i32>),
    /// FramebufferUpdateRequest.
    FbUpdateRequest { incremental: bool, x: u16, y: u16, width: u16, height: u16 },
    /// KeyEvent.
    KeyEvent { down: bool, key: u32 },
    /// PointerEvent.
    PointerEvent { button_mask: u8, x: u16, y: u16 },
    /// ClientCutText.
    CutText(String),
}

/// What a client message says.
pub ghost enum Msg {
    SetPixelFormat(PixelFormat),
    SetEncodings(Seq<i32>),
    FbUpdateRequest { incremental: bool, x: u16, y: u16, width: u16, height: u16 },
    KeyEvent { down: bool, key: u32 },
    PointerEvent { button_mask: u8, x: u16, y: u16 },
    CutText(Seq<char>),
}

impl View for ClientMessage {
    type V = Msg;

    open spec fn view(&self) -> Msg {
        match *self {
            ClientMessage::SetPixelFormat(pf) => Msg::SetPixelFormat(pf),
            ClientMessage::SetEncodings(v) => Msg::SetEncodings(v@),
            ClientMessage::FbUpdateRequest { incremental, x, y, width, height } => {
                Msg::FbUpdateRequest { incremental, x, y, width, height }
            },
            ClientMessage::KeyEvent { down, key } => Msg::KeyEvent { down, key },
            ClientMessage::PointerEvent { button_mask, x, y } => {
                Msg::PointerEvent { button_mask, x, y }
            },
            ClientMessage::CutText(s) => Msg::CutText(s@),
        }
    }
}

/// Whether an error is the socket's read timeout rather than a fault.
pub fn is_read_timeout(kind: ErrorKind) -> (r: bool)
    ensures
        r == (kind == ErrorKind::WouldBlock || kind == ErrorKind::TimedOut),
{
    kind == ErrorKind::WouldBlock || kind == ErrorKind::TimedOut
}

/// What to do about a failed read of the client's socket.
#[derive(Debug, Clone, Copy, PartialEq, Eq, Structural)]
pub enum ReadStep {
    /// Read again.
    Retry,
    /// Nothing has come, and nothing was begun.
    Idle,
    /// Give the client up.
    Fail,
}

/// What to do about a failed read.
///
/// An interrupted read is tried again. A timeout between messages means that
/// nothing has come. One inside a message is ridden out until `waited_ms`
/// reaches [`BODY_DEADLINE_MS`], because the framing is committed by then.
/// Any other error ends the client.
pub fn after_failed_read(kind: ErrorKind, mid_message: bool, waited_ms: u64) -> (r: ReadStep)
    ensures
        r == if kind == ErrorKind::Interrupted {
            ReadStep::Retry
        } else if kind != ErrorKind::WouldBlock && kind != ErrorKind::TimedOut {
            ReadStep::Fail
        } else if !mid_message {
            ReadStep::Idle
        } else if waited_ms >= BODY_DEADLINE_MS {
            ReadStep::Fail
        } else {
            ReadStep::Retry
        },
{
    if kind == ErrorKind::Interrupted {
        ReadStep::Retry
    } else if !is_read_timeout(kind) {
        ReadStep::Fail
    } else if !mid_message {
        ReadStep::Idle
    } else if waited_ms >= BODY_DEADLINE_MS {
        ReadStep::Fail
    } else {
        ReadStep::Retry
    }
}

/// Text of bytes that need not be UTF-8, with a replacement character for
/// what is not.
pub uninterp spec fn utf8_lossy(bytes: Seq<u8>) -> Seq<char>;

/// `String::from_utf8_lossy`: the text of the bytes, which for valid UTF-8
/// is the text they encode.
#[verifier::external_body]
fn lossy_text(bytes: &[u8]) -> (r: String)
    ensures
        r@ == utf8_lossy(bytes@),
        valid_utf8(bytes@) ==> encode_utf8(r@) == bytes@,
{
    String::from_utf8_lossy(bytes).into_owned()
}

/// Whether `t` is the type of a message a client may send.
pub open spec fn known_type(t: u8) -> bool {
    t == CLIENT_SET_PIXEL_FORMAT || CLIENT_SET_ENCODINGS <= t <= CLIENT_CUT_TEXT
}

/// How many bytes the message at the front of `s` has, once enough of it has
/// come to tell.
pub open spec fn message_len(s: Seq<u8>) -> Option<int> {
    if s.len() == 0 {
        None
    } else if s[0] == CLIENT_SET_PIXEL_FORMAT {
        Some(20)
    } else if s[0] == CLIENT_SET_ENCODINGS {
        if s.len() < 4 {
            None
        } else {
            Some(4 + 4 * be16(s, 2))
        }
    } else if s[0] == CLIENT_FB_UPDATE_REQUEST {
        Some(10)
    } else if s[0] == CLIENT_KEY_EVENT {
        Some(8)
    } else if s[0] == CLIENT_POINTER_EVENT {
        Some(6)
    } else {
        if s.len() < CUT_TEXT_HEADER {
            None
        } else {
            Some(CUT_TEXT_HEADER + be32(s, 4))
        }
    }
}

/// Whether all of the message at the front of `s` has come.
pub open spec fn is_complete(s: Seq<u8>) -> bool {
    message_len(s) is Some && s.len() >= message_len(s)->0
}

/// The encodings of a SetEncodings message, the first 64 of them at most.
pub open spec fn encodings(s: Seq<u8>) -> Seq<i32> {
    let count = be16(s, 2);
    Seq::new(
        if count <= MAX_ENCODINGS {
            count as nat
        } else {
            MAX_ENCODINGS as nat
        },
        |i: int| signed(be32(s, 4 + 4 * i)),
    )
}

/// The text of a ClientCutText message, its first mebibyte at most.
pub open spec fn cut_text(s: Seq<u8>) -> Seq<u8> {
    let len = be32(s, 4);
    s.subrange(
        CUT_TEXT_HEADER as int,
        CUT_TEXT_HEADER + if len <= CUT_TEXT_CAP {
            len as int
        } else {
            CUT_TEXT_CAP as int
        },
    )
}

/// The message at the front of `s`, all of which has come.
pub open spec fn message(s: Seq<u8>) -> Msg {
    if s[0] == CLIENT_SET_PIXEL_FORMAT {
        // Three bytes of padding, then the format.
        Msg::SetPixelFormat(PixelFormat::of_bytes(s, 4))
    } else if s[0] == CLIENT_SET_ENCODINGS {
        Msg::SetEncodings(encodings(s))
    } else if s[0] == CLIENT_FB_UPDATE_REQUEST {
        Msg::FbUpdateRequest {
            incremental: s[1] != 0,
            x: be16(s, 2),
            y: be16(s, 4),
            width: be16(s, 6),
            height: be16(s, 8),
        }
    } else if s[0] == CLIENT_KEY_EVENT {
        // Two bytes of padding before the key.
        Msg::KeyEvent { down: s[1] != 0, key: be32(s, 4) }
    } else if s[0] == CLIENT_POINTER_EVENT {
        Msg::PointerEvent { button_mask: s[1], x: be16(s, 2), y: be16(s, 4) }
    } else {
        Msg::CutText(utf8_lossy(cut_text(s)))
    }
}

/// What [`read_client_message`] answers, and what it leaves of the stream.
pub open spec fn next_message(r: Received) -> (Result<Option<Msg>, RfbError>, Received) {
    let s = r.bytes;
    if s.len() == 0 {
        (
            if r.ended {
                Ok(None)
            } else {
                Err(RfbError::WouldBlock)
            },
            r,
        )
    } else if !known_type(s[0]) {
        (Err(RfbError::UnknownMessageType(s[0])), r)
    } else if is_complete(s) {
        (Ok(Some(message(s))), skipped(r, message_len(s)->0))
    } else {
        (Err(starved(r)), r)
    }
}

/// What a parsed message or its absence says.
pub open spec fn message_view(r: Result<Option<ClientMessage>, RfbError>) -> Result<
    Option<Msg>,
    RfbError,
> {
    match r {
        Ok(Some(m)) => Ok(Some(m@)),
        Ok(None) => Ok(None),
        Err(e) => Err(e),
    }
}

/// Read and parse a single client message.
///
/// Returns `None` on EOF (client disconnected). A message of which more has
/// to come is left where it is. The length of an unknown message is not
/// known, so nothing behind it can be parsed.
pub fn read_client_message(stream: &mut ClientStream) -> (r: Result<
    Option<ClientMessage>,
    RfbError,
>)
    requires
        old(stream).wf(),
        old(stream).is_framed(),
    ensures
        final(stream).wf(),
        final(stream).is_framed(),
        (message_view(r), final(stream)@) == next_message(old(stream)@),
{
    let ghost s = stream@.bytes;
    let (front, dropped) = stream.front();
    if front.len() == 0 {
        return if stream.is_ended() {
            Ok(None)
        } else {
            Err(RfbError::WouldBlock)
        };
    }
    let head = front.as_slice();
    let t: u8 = head[0];
    if !(t == CLIENT_SET_PIXEL_FORMAT || (CLIENT_SET_ENCODINGS <= t && t <= CLIENT_CUT_TEXT)) {
        return Err(RfbError::UnknownMessageType(t));
    }
    let total: u64 = match front_len(head) {
        Some(n) => n,
        None => {
            return Err(starvation(stream));
        },
    };
    if (head.len() as u64) + (dropped as u64) < total {
        return Err(starvation(stream));
    }
    proof {
        assert(forall|i: int| 0 <= i < head@.len() ==> s[i] == head@[i]);
        if head@.len() >= CUT_TEXT_HEADER {
            assert(be32(s, 4) == be32(head@, 4));
        }
    }
    let msg = parse_front(head, Ghost(s));
    stream.advance(total);
    Ok(Some(msg))
}

/// How many bytes the message at the front has.
fn front_len(head: &[u8]) -> (r: Option<u64>)
    requires
        head@.len() > 0,
        known_type(head@[0]),
    ensures
        match r {
            Some(n) => message_len(head@) == Some(n as int),
            None => message_len(head@) is None,
        },
{
    match head[0] {
        CLIENT_SET_PIXEL_FORMAT => Some(20),
        CLIENT_SET_ENCODINGS => {
            if head.len() < 4 {
                None
            } else {
                Some(4 + 4 * get_be16(head, 2) as u64)
            }
        },
        CLIENT_FB_UPDATE_REQUEST => Some(10),
        CLIENT_KEY_EVENT => Some(8),
        CLIENT_POINTER_EVENT => Some(6),
        _ => {
            if head.len() < CUT_TEXT_HEADER {
                None
            } else {
                Some(CUT_TEXT_HEADER as u64 + get_be32(head, 4) as u64)
            }
        },
    }
}

/// Parse the message at the front of the stream `s`, of which `head` is held.
fn parse_front(head: &[u8], Ghost(s): Ghost<Seq<u8>>) -> (r: ClientMessage)
    requires
        head@.len() > 0,
        known_type(head@[0]),
        head@.len() <= s.len(),
        head@ == s.take(head@.len() as int),
        is_complete(s),
        message_len(head@) == message_len(s),
        head@.len() >= message_len(s)->0 || (starts_long_cut(head@) && head@.len()
            == CUT_TEXT_HEADER + CUT_TEXT_CAP),
    ensures
        r@ == message(s),
{
    proof {
        assert(forall|i: int| 0 <= i < head@.len() ==> s[i] == head@[i]);
    }
    match head[0] {
        CLIENT_SET_PIXEL_FORMAT => ClientMessage::SetPixelFormat(PixelFormat::read_at(head, 4)),
        CLIENT_SET_ENCODINGS => {
            let list = read_encodings(head);
            proof {
                assert(list@ =~= encodings(s));
            }
            ClientMessage::SetEncodings(list)
        },
        CLIENT_FB_UPDATE_REQUEST => ClientMessage::FbUpdateRequest {
            incremental: head[1] != 0,
            x: get_be16(head, 2),
            y: get_be16(head, 4),
            width: get_be16(head, 6),
            height: get_be16(head, 8),
        },
        CLIENT_KEY_EVENT => ClientMessage::KeyEvent { down: head[1] != 0, key: get_be32(head, 4) },
        CLIENT_POINTER_EVENT => ClientMessage::PointerEvent {
            button_mask: head[1],
            x: get_be16(head, 2),
            y: get_be16(head, 4),
        },
        _ => {
            let len: u32 = get_be32(head, 4);
            let kept: usize = if len as usize <= CUT_TEXT_CAP {
                len as usize
            } else {
                CUT_TEXT_CAP
            };
            let text = sub_bytes(head, CUT_TEXT_HEADER, CUT_TEXT_HEADER + kept);
            assert(text@ =~= cut_text(s));
            ClientMessage::CutText(lossy_text(text.as_slice()))
        },
    }
}

/// The encodings of a SetEncodings message, capped so that a client cannot
/// make the list long.
fn read_encodings(head: &[u8]) -> (r: Vec<i32>)
    requires
        head@.len() >= 4,
        head@.len() >= 4 + 4 * be16(head@, 2),
    ensures
        r@ == encodings(head@),
{
    let count: usize = get_be16(head, 2) as usize;
    let capped: usize = if count <= MAX_ENCODINGS {
        count
    } else {
        MAX_ENCODINGS
    };
    let mut list: Vec<i32> = Vec::new();
    let mut i: usize = 0;
    while i < capped
        invariant
            i <= capped <= count,
            count == be16(head@, 2),
            capped == encodings(head@).len(),
            head@.len() >= 4 + 4 * count,
            list@ == encodings(head@).take(i as int),
        decreases capped - i,
    {
        list.push(to_signed(get_be32(head, 4 + 4 * i)));
        i += 1;
        assert(list@ =~= encodings(head@).take(i as int));
    }
    assert(encodings(head@).take(i as int) =~= encodings(head@));
    list
}

/// What comes behind a whole message does not change it.
proof fn message_is_its_bytes(a: Seq<u8>, b: Seq<u8>)
    requires
        a.len() > 0,
        known_type(a[0]),
        is_complete(a),
    ensures
        message_len(a + b) == message_len(a),
        message(a + b) == message(a),
{
    let s = a + b;
    assert(forall|i: int| 0 <= i < a.len() ==> s[i] == a[i]);
    if a[0] == CLIENT_SET_ENCODINGS {
        assert(encodings(s) =~= encodings(a));
    } else if a[0] == CLIENT_CUT_TEXT {
        assert(cut_text(s) =~= cut_text(a));
    }
}

/// Messages that come one behind the other are read one behind the other:
/// reading the first leaves exactly the bytes behind it.
pub proof fn messages_stay_framed(first: Seq<u8>, behind: Seq<u8>, ended: bool)
    requires
        first.len() > 0,
        known_type(first[0]),
        is_complete(first),
        message_len(first) == Some(first.len() as int),
    ensures
        next_message(Received { bytes: first + behind, ended }) == (
            Ok::<Option<Msg>, RfbError>(Some(message(first))),
            Received { bytes: behind, ended },
        ),
{
    message_is_its_bytes(first, behind);
    assert((first + behind).skip(first.len() as int) =~= behind);
}

/// A read that finds only part of a message takes nothing, so the rest can
/// come later and the message is read whole.
pub proof fn partial_message_is_kept(part: Seq<u8>, rest: Seq<u8>)
    requires
        part.len() > 0,
        known_type(part[0]),
        !is_complete(part),
        is_complete(part + rest),
    ensures
        ({
            let r = Received { bytes: part, ended: false };
            let (answer, left) = next_message(r);
            &&& answer == Err::<Option<Msg>, RfbError>(RfbError::WouldBlock)
            &&& left == r
            &&& next_message(Received { bytes: left.bytes + rest, ended: false }).0 == Ok::<
                Option<Msg>,
                RfbError,
            >(Some(message(part + rest)))
        }),
{
}

/// A client that closes its end inside a message gets an error, and one that
/// closes it between messages does not.
pub proof fn closed_stream(part: Seq<u8>)
    requires
        part.len() > 0 ==> known_type(part[0]) && !is_complete(part),
    ensures
        next_message(Received { bytes: part, ended: true }).0 == if part.len() == 0 {
            Ok::<Option<Msg>, RfbError>(None)
        } else {
            Err(RfbError::ClosedMidMessage)
        },
{
}

} // verus!
