//! The wire format of remote framebuffer clients.

use des::cipher::{BlockDecrypt, KeyInit};
use des::Des;
use vmm::fbuf::rfb::{
    after_failed_read, handshake_security, handshake_version, is_read_timeout, key_of_password,
    read_client_message, reverse_bits, send_challenge, send_security_types, send_version,
    vnc_auth_challenge, vnc_des_encrypt, ClientMessage, ErrorKind, PixelFormat, ReadStep,
    RectHeader, RfbError, SecurityStep, CLIENT_CUT_TEXT, CLIENT_FB_UPDATE_REQUEST, CLIENT_KEY_EVENT,
    CLIENT_POINTER_EVENT, CLIENT_SET_ENCODINGS, ENCODING_RAW, MAX_ENCODINGS, RFB_VERSION,
    SECURITY_NONE, SECURITY_RESULT_FAILED, SECURITY_RESULT_OK, SECURITY_VNC_AUTH,
};
use vmm::fbuf::stream::{ClientStream, CUT_TEXT_CAP};

/// A stream past its handshake that holds `data`.
fn framed(data: &[u8]) -> ClientStream {
    let mut stream = ClientStream::new();
    stream.start_messages();
    stream.feed(data);
    stream
}

#[test]
fn pixel_format_roundtrip() {
    let pf = PixelFormat::xrgb8888();
    let bytes = pf.to_bytes();
    let pf2 = PixelFormat::from_bytes(&bytes);
    assert_eq!(pf2.bits_per_pixel, 32);
    assert_eq!(pf2.depth, 24);
    assert_eq!(pf2.big_endian, 0);
    assert_eq!(pf2.true_color, 1);
    assert_eq!(pf2.red_max, 255);
    assert_eq!(pf2.green_max, 255);
    assert_eq!(pf2.blue_max, 255);
    assert_eq!(pf2.red_shift, 16);
    assert_eq!(pf2.green_shift, 8);
    assert_eq!(pf2.blue_shift, 0);
}

#[test]
fn reverse_bits_smoke() {
    assert_eq!(reverse_bits(0b1000_0000), 0b0000_0001);
    assert_eq!(reverse_bits(0b1010_0101), 0b1010_0101);
    assert_eq!(reverse_bits(0xFF), 0xFF);
    assert_eq!(reverse_bits(0x00), 0x00);
}

#[test]
fn rect_header_to_bytes() {
    let hdr = RectHeader {
        x: 0,
        y: 0,
        width: 1024,
        height: 768,
        encoding: ENCODING_RAW,
    };
    let bytes = hdr.to_bytes();
    assert_eq!(bytes.len(), 12);
    assert_eq!(u16::from_be_bytes([bytes[4], bytes[5]]), 1024);
    assert_eq!(u16::from_be_bytes([bytes[6], bytes[7]]), 768);
    assert_eq!(
        i32::from_be_bytes([bytes[8], bytes[9], bytes[10], bytes[11]]),
        0
    );
}

#[test]
fn version_handshake() {
    let client_data = b"RFB 003.008\n";
    let mut server_out = Vec::new();
    send_version(&mut server_out);
    assert_eq!(server_out, RFB_VERSION);

    let mut stream = ClientStream::new();
    stream.feed(client_data);
    let minor = handshake_version(&mut stream).expect("parse minor");
    assert_eq!(minor, 8);
}

#[test]
fn parse_fb_update_request() {
    // A FramebufferUpdateRequest message, type byte first.
    let mut data = Vec::new();
    data.push(CLIENT_FB_UPDATE_REQUEST); // msg type
    data.push(1); // incremental
    data.extend_from_slice(&0u16.to_be_bytes()); // x
    data.extend_from_slice(&0u16.to_be_bytes()); // y
    data.extend_from_slice(&1024u16.to_be_bytes()); // width
    data.extend_from_slice(&768u16.to_be_bytes()); // height

    let mut reader = framed(&data);
    reader.end();
    let msg = read_client_message(&mut reader)
        .expect("read")
        .expect("some");
    match msg {
        ClientMessage::FbUpdateRequest {
            incremental,
            x,
            y,
            width,
            height,
        } => {
            assert!(incremental);
            assert_eq!(x, 0);
            assert_eq!(y, 0);
            assert_eq!(width, 1024);
            assert_eq!(height, 768);
        }
        _ => panic!("expected FbUpdateRequest"),
    }
}

#[test]
fn parse_key_event() {
    let mut data = Vec::new();
    data.push(CLIENT_KEY_EVENT);
    data.push(1); // down
    data.extend_from_slice(&[0, 0]); // padding
    data.extend_from_slice(&0x0041u32.to_be_bytes()); // key 'A'

    let mut reader = framed(&data);
    reader.end();
    let msg = read_client_message(&mut reader)
        .expect("read")
        .expect("some");
    match msg {
        ClientMessage::KeyEvent { down, key } => {
            assert!(down);
            assert_eq!(key, 0x41);
        }
        _ => panic!("expected KeyEvent"),
    }
}

#[test]
fn parse_pointer_event() {
    let mut data = Vec::new();
    data.push(CLIENT_POINTER_EVENT);
    data.push(0x01); // button mask (left button)
    data.extend_from_slice(&100u16.to_be_bytes()); // x
    data.extend_from_slice(&200u16.to_be_bytes()); // y

    let mut reader = framed(&data);
    reader.end();
    let msg = read_client_message(&mut reader)
        .expect("read")
        .expect("some");
    match msg {
        ClientMessage::PointerEvent { button_mask, x, y } => {
            assert_eq!(button_mask, 0x01);
            assert_eq!(x, 100);
            assert_eq!(y, 200);
        }
        _ => panic!("expected PointerEvent"),
    }
}

#[test]
fn eof_returns_none() {
    let data: Vec<u8> = vec![];
    let mut reader = framed(&data);
    reader.end();
    let result = read_client_message(&mut reader).expect("no error");
    assert!(result.is_none());
}

#[test]
fn unknown_msg_type_is_error() {
    let data = vec![0xFF_u8]; // unknown type
    let mut reader = framed(&data);
    reader.end();
    let result = read_client_message(&mut reader);
    assert!(result.is_err());
}

#[test]
fn vnc_des_encrypt_known_vector() {
    // The VNC key for "password" with bit-reversed bytes:
    //   'p'=0x70 -> 0x0E, 'a'=0x61 -> 0x86, 's'=0x73 -> 0xCE,
    //   's'=0x73 -> 0xCE, 'w'=0x77 -> 0xEE, 'o'=0x6F -> 0xF6,
    //   'r'=0x72 -> 0x4E, 'd'=0x64 -> 0x26
    //
    // The result must be real DES, not XOR, and DES decryption must
    // give back the original challenge.
    let challenge: [u8; 16] = [
        0x01, 0x02, 0x03, 0x04, 0x05, 0x06, 0x07, 0x08, 0x09, 0x0A, 0x0B,
        0x0C, 0x0D, 0x0E, 0x0F, 0x10,
    ];
    let result = vnc_des_encrypt("password", &challenge);

    // The result must differ from a plain XOR with the key.
    let mut xor_result = [0u8; 16];
    let key_bytes = b"password";
    for i in 0..16 {
        let kb = if i % 8 < key_bytes.len() {
            reverse_bits(key_bytes[i % 8])
        } else {
            0
        };
        xor_result[i] = challenge[i] ^ kb;
    }
    assert_ne!(
        result, xor_result,
        "DES output must differ from trivial XOR"
    );

    // Verify DES decryption recovers the challenge (round-trip)
        let mut key = [0u8; 8];
    for (i, b) in b"password".iter().take(8).enumerate() {
        key[i] = reverse_bits(*b);
    }
    let cipher = Des::new_from_slice(&key).expect("eight bytes");
    let mut decrypted = result;
    let (first, second) = decrypted.split_at_mut(8);
    cipher.decrypt_block(first.into());
    cipher.decrypt_block(second.into());
    assert_eq!(
        decrypted, challenge,
        "DES round-trip must recover challenge"
    );
}

#[test]
fn vnc_des_encrypt_short_password() {
    // Password shorter than 8 bytes: remaining key bytes are zero
    let challenge: [u8; 16] = [0xAA; 16];
    let result = vnc_des_encrypt("abc", &challenge);
    // Must not panic and must produce a valid 16-byte result
    assert_eq!(result.len(), 16);
    // Must differ from the input challenge (DES changes it)
    assert_ne!(result, challenge);
}

#[test]
fn vnc_des_encrypt_empty_password() {
    // Empty password: all key bytes are zero
    let challenge: [u8; 16] = [0x55; 16];
    let result = vnc_des_encrypt("", &challenge);
    assert_eq!(result.len(), 16);
    // Even with an all-zero key, DES transforms the input
    assert_ne!(result, challenge);
}

fn pointer(mask: u8, x: u16, y: u16) -> Vec<u8> {
    let mut m = vec![CLIENT_POINTER_EVENT, mask];
    m.extend_from_slice(&x.to_be_bytes());
    m.extend_from_slice(&y.to_be_bytes());
    m
}

#[test]
fn a_read_timeout_mid_message_does_not_lose_the_framing() {
    let first = pointer(1, 0x0102, 0x0304);
    let second = pointer(0, 0x0506, 0x0708);

    // The socket hands its bytes out in pieces, with a timeout between them.
    let mut reader = framed(&first[..1]);
    assert_eq!(read_client_message(&mut reader).expect_err("no body"), RfbError::WouldBlock);
    reader.feed(&first[1..3]);
    assert_eq!(read_client_message(&mut reader).expect_err("half a body"), RfbError::WouldBlock);
    reader.feed(&first[3..]);
    reader.feed(&second);
    reader.end();

    assert!(matches!(
        read_client_message(&mut reader).expect("first message"),
        Some(ClientMessage::PointerEvent {
            button_mask: 1,
            x: 0x0102,
            y: 0x0304
        })
    ));
    // The stream is still framed, so the next message parses.
    assert!(matches!(
        read_client_message(&mut reader).expect("second message"),
        Some(ClientMessage::PointerEvent {
            button_mask: 0,
            x: 0x0506,
            y: 0x0708
        })
    ));
    assert!(read_client_message(&mut reader)
        .expect("clean EOF")
        .is_none());
}

#[test]
fn a_client_that_stops_mid_message_is_an_error_not_a_message() {
    let mut reader = framed(&[CLIENT_POINTER_EVENT, 1]);
    reader.end();
    let err = read_client_message(&mut reader)
        .expect_err("a half message is not a message");
    assert_eq!(err.kind(), ErrorKind::UnexpectedEof);
}

#[test]
fn a_timeout_inside_a_message_is_ridden_out_until_its_deadline() {
    assert_eq!(after_failed_read(ErrorKind::WouldBlock, false, 0), ReadStep::Idle);
    assert_eq!(after_failed_read(ErrorKind::TimedOut, true, 4999), ReadStep::Retry);
    assert_eq!(after_failed_read(ErrorKind::TimedOut, true, 5000), ReadStep::Fail);
    assert_eq!(after_failed_read(ErrorKind::Interrupted, true, 9000), ReadStep::Retry);
    assert_eq!(after_failed_read(ErrorKind::ConnectionReset, false, 0), ReadStep::Fail);
    assert!(is_read_timeout(ErrorKind::TimedOut));
    assert!(!is_read_timeout(ErrorKind::BrokenPipe));
}

#[test]
fn pasted_text_that_is_not_utf8_is_replaced() {
    let mut data = vec![CLIENT_CUT_TEXT, 0, 0, 0];
    data.extend_from_slice(&3u32.to_be_bytes());
    data.extend_from_slice(&[b'a', 0xFF, b'b']);
    let mut reader = framed(&data);
    match read_client_message(&mut reader).expect("read").expect("some") {
        ClientMessage::CutText(text) => assert_eq!(text, "a\u{FFFD}b"),
        other => panic!("expected CutText, not {other:?}"),
    }
}

#[test]
fn a_long_paste_is_cut_and_stays_framed() {
    let over: usize = 100;
    let mut data = vec![CLIENT_CUT_TEXT, 0, 0, 0];
    data.extend_from_slice(&((CUT_TEXT_CAP + over) as u32).to_be_bytes());
    let mut reader = framed(&data);
    reader.feed(&vec![b'x'; CUT_TEXT_CAP + over]);
    reader.feed(&pointer(1, 2, 3));
    match read_client_message(&mut reader).expect("read").expect("some") {
        ClientMessage::CutText(text) => assert_eq!(text.len(), CUT_TEXT_CAP),
        other => panic!("expected CutText, not {other:?}"),
    }
    assert!(matches!(
        read_client_message(&mut reader).expect("read"),
        Some(ClientMessage::PointerEvent { button_mask: 1, x: 2, y: 3 })
    ));
}

#[test]
fn the_encodings_of_a_client_are_bounded() {
    let mut data = vec![CLIENT_SET_ENCODINGS, 0];
    data.extend_from_slice(&100u16.to_be_bytes());
    for i in 0..100i32 {
        data.extend_from_slice(&i.to_be_bytes());
    }
    let mut reader = framed(&data);
    match read_client_message(&mut reader).expect("read").expect("some") {
        ClientMessage::SetEncodings(list) => {
            assert_eq!(list.len(), MAX_ENCODINGS);
            assert_eq!(list[63], 63);
        }
        other => panic!("expected SetEncodings, not {other:?}"),
    }
}

#[test]
fn security_types_follow_the_password() {
    let mut out = Vec::new();
    send_security_types(false, &mut out);
    send_security_types(true, &mut out);
    assert_eq!(out, [1, SECURITY_NONE, 1, SECURITY_VNC_AUTH]);

    let choose = |selected: u8, has_password: bool| {
        let mut stream = ClientStream::new();
        stream.feed(&[selected]);
        let mut out = Vec::new();
        (handshake_security(&mut stream, &mut out, has_password), out)
    };
    assert_eq!(
        choose(SECURITY_NONE, false),
        (Ok(SecurityStep::Accepted), SECURITY_RESULT_OK.to_be_bytes().to_vec())
    );
    let failed = SECURITY_RESULT_FAILED.to_be_bytes().to_vec();
    assert_eq!(
        choose(SECURITY_NONE, true),
        (Err(RfbError::AuthenticationRequired), failed.clone())
    );
    assert_eq!(
        choose(SECURITY_VNC_AUTH, false),
        (Err(RfbError::VncAuthNotAvailable), failed.clone())
    );
    assert_eq!(choose(7, true), (Err(RfbError::UnsupportedSecurityType(7)), failed));
}

#[test]
fn a_challenge_is_fresh_and_its_answer_lets_the_client_in() {
    let challenge_of = || {
        let mut stream = ClientStream::new();
        stream.feed(&[SECURITY_VNC_AUTH]);
        let mut out = Vec::new();
        match handshake_security(&mut stream, &mut out, true) {
            Ok(SecurityStep::Challenged(c)) => {
                assert_eq!(out, c);
                c
            }
            other => panic!("no challenge: {other:?}"),
        }
    };
    let challenge = challenge_of();
    assert_ne!(challenge, [0u8; 16]);
    assert_ne!(challenge, challenge_of());

    let mut stream = ClientStream::new();
    stream.feed(&vnc_des_encrypt("secret", &challenge));
    let mut out = Vec::new();
    assert_eq!(vnc_auth_challenge(&mut stream, &mut out, "secret", &challenge), Ok(()));
    assert_eq!(out, SECURITY_RESULT_OK.to_be_bytes());

    let mut stream = ClientStream::new();
    stream.feed(&[0u8; 16]);
    let mut out = Vec::new();
    assert_eq!(
        vnc_auth_challenge(&mut stream, &mut out, "secret", &challenge),
        Err(RfbError::VncAuthFailed)
    );
    assert_eq!(out, SECURITY_RESULT_FAILED.to_be_bytes());
}

#[test]
fn a_source_without_entropy_lets_nobody_in() {
    let mut out = Vec::new();
    assert_eq!(
        send_challenge(Err(getrandom::Error::UNSUPPORTED), &mut out),
        Err(RfbError::NoEntropy)
    );
    assert!(out.is_empty());
}

#[test]
fn a_password_key_is_its_first_eight_bytes_reversed() {
    assert_eq!(
        key_of_password(b"password-and-more"),
        [0x0E, 0x86, 0xCE, 0xCE, 0xEE, 0xF6, 0x4E, 0x26]
    );
    assert_eq!(key_of_password(b"a"), [0x86, 0, 0, 0, 0, 0, 0, 0]);
}

#[test]
fn every_error_has_its_kind() {
    assert_eq!(RfbError::WouldBlock.kind(), ErrorKind::WouldBlock);
    assert_eq!(RfbError::ClosedMidMessage.kind(), ErrorKind::UnexpectedEof);
    assert_eq!(RfbError::AuthenticationRequired.kind(), ErrorKind::PermissionDenied);
    assert_eq!(RfbError::VncAuthNotAvailable.kind(), ErrorKind::PermissionDenied);
    assert_eq!(RfbError::UnsupportedSecurityType(9).kind(), ErrorKind::InvalidData);
    assert_eq!(RfbError::VncAuthFailed.kind(), ErrorKind::PermissionDenied);
    assert_eq!(RfbError::NoEntropy.kind(), ErrorKind::Other);
    assert_eq!(RfbError::UnknownMessageType(9).kind(), ErrorKind::InvalidData);
}
