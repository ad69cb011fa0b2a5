//! A remote display client.

use vmm::fbuf::{pack_resolution, BAR1_SIZE, BYTES_PER_PIXEL};
use vmm::fbuf::vnc::{
    dispatch_client_message, is_expected_disconnect, send_framebuffer_update, ClientView,
    InputEvent, Request, Session, Step,
};
use vmm::fbuf::rfb::{
    vnc_des_encrypt, ClientMessage, ErrorKind, RectHeader, RfbError, ENCODING_DESKTOP_SIZE,
    ENCODING_RAW, RFB_VERSION, SECURITY_RESULT_FAILED,
};

/// A client that was told `width` x `height` and offered no
/// DesktopSize.
fn announced(width: u16, height: u16) -> ClientView {
    ClientView {
        width,
        height,
        desktop_size: false,
    }
}

#[test]
fn key_message_reaches_input_broker() {
    let request = dispatch_client_message(
        &mut announced(1024, 768),
        pack_resolution(1024, 768),
        &ClientMessage::KeyEvent {
            down: true,
            key: 0xff0d,
        },
    );
    assert_eq!(request, Request::Input(InputEvent::Key { down: true, keysym: 0xff0d }));
}

/// What one update puts on the wire: the rectangle headers.
fn sent_rects(resolution: u32, view: &mut ClientView) -> Vec<RectHeader> {
    let pixels = vec![0u8; BAR1_SIZE as usize];
    let mut wire = Vec::new();
    send_framebuffer_update(&mut wire, view, resolution, &pixels);
    let mut rects = Vec::new();
    let mut at: usize = 0;
    while at + 4 <= wire.len() {
        let count = u16::from_be_bytes([wire[at + 2], wire[at + 3]]);
        at += 4;
        for _ in 0..count {
            let r = &wire[at..at + 12];
            let rect = RectHeader {
                x: u16::from_be_bytes([r[0], r[1]]),
                y: u16::from_be_bytes([r[2], r[3]]),
                width: u16::from_be_bytes([r[4], r[5]]),
                height: u16::from_be_bytes([r[6], r[7]]),
                encoding: i32::from_be_bytes([r[8], r[9], r[10], r[11]]),
            };
            at += 12;
            if rect.encoding == ENCODING_RAW {
                at += usize::from(rect.width)
                    * usize::from(rect.height)
                    * BYTES_PER_PIXEL as usize;
            }
            rects.push(rect);
        }
    }
    assert_eq!(at, wire.len(), "the update is whole");
    rects
}

#[test]
fn a_client_without_desktop_size_never_gets_a_bigger_rectangle() {
    // ServerInit carried 1024x768. A rectangle larger than that is a
    // protocol violation and most viewers drop the connection.
    let mut view = announced(1024, 768);
    let rects = sent_rects(pack_resolution(1920, 1080), &mut view);
    assert_eq!(rects.len(), 1);
    assert_eq!(rects[0].encoding, ENCODING_RAW);
    assert_eq!((rects[0].width, rects[0].height), (1024, 768));
    assert_eq!((view.width, view.height), (1024, 768));
}

#[test]
fn a_client_with_desktop_size_is_told_the_new_resolution() {
    let mut view = ClientView {
        width: 1024,
        height: 768,
        desktop_size: true,
    };
    let rects = sent_rects(pack_resolution(800, 600), &mut view);
    assert_eq!(rects.len(), 2, "{rects:?}");
    assert_eq!(rects[0].encoding, ENCODING_DESKTOP_SIZE);
    assert_eq!((rects[0].width, rects[0].height), (800, 600));
    assert_eq!(rects[1].encoding, ENCODING_RAW);
    assert_eq!((rects[1].width, rects[1].height), (800, 600));
    assert_eq!((view.width, view.height), (800, 600));

    // The next update is a plain rectangle: the size is now known.
    let rects = sent_rects(pack_resolution(800, 600), &mut view);
    assert_eq!(rects.len(), 1);
    assert_eq!(rects[0].encoding, ENCODING_RAW);
}

#[test]
fn set_encodings_records_whether_the_client_takes_desktop_size() {
    let res = pack_resolution(1024, 768);
    let mut view = announced(1024, 768);
    dispatch_client_message(
        &mut view,
        res,
        &ClientMessage::SetEncodings(vec![
            ENCODING_RAW,
            ENCODING_DESKTOP_SIZE,
        ]),
    );
    assert!(view.desktop_size);
    dispatch_client_message(
        &mut view,
        res,
        &ClientMessage::SetEncodings(vec![ENCODING_RAW]),
    );
    assert!(!view.desktop_size);
}

#[test]
fn a_pointer_is_scaled_to_the_tablet() {
    let request = dispatch_client_message(
        &mut announced(1024, 768),
        pack_resolution(1024, 768),
        &ClientMessage::PointerEvent { button_mask: 1, x: 1023, y: 0 },
    );
    assert_eq!(
        request,
        Request::Input(InputEvent::Pointer { buttons: 1, x: 0x7FFF, y: 0 })
    );
}

#[test]
fn only_a_client_that_left_ends_quietly() {
    assert!(is_expected_disconnect(ErrorKind::UnexpectedEof));
    assert!(is_expected_disconnect(ErrorKind::BrokenPipe));
    assert!(is_expected_disconnect(ErrorKind::ConnectionReset));
    assert!(!is_expected_disconnect(ErrorKind::InvalidData));
    assert!(!is_expected_disconnect(ErrorKind::TimedOut));
}

/// A session past its handshake.
fn connected(password: Option<&str>, res: u32) -> Session {
    let mut out = Vec::new();
    let mut session = Session::start(&mut out);
    assert_eq!(out, RFB_VERSION);
    session.feed(b"RFB 003.008\n");
    assert_eq!(session.step(password, res, &mut out), Ok(Step::Advanced));
    match password {
        None => session.feed(&[1]),
        Some(word) => {
            session.feed(&[2]);
            out.clear();
            assert_eq!(session.step(password, res, &mut out), Ok(Step::Advanced));
            let mut challenge = [0u8; 16];
            challenge.copy_from_slice(&out);
            session.feed(&vnc_des_encrypt(word, &challenge));
        }
    }
    assert_eq!(session.step(password, res, &mut out), Ok(Step::Advanced));
    session.feed(&[1]);
    out.clear();
    assert_eq!(session.step(password, res, &mut out), Ok(Step::Advanced));
    assert_eq!(&out[..4], [0x04, 0x00, 0x03, 0x00], "1024x768");
    assert!(session.is_running());
    session
}

#[test]
fn a_session_runs_from_its_handshake_to_an_update() {
    let res = pack_resolution(1024, 768);
    for password in [None, Some("secret")] {
        let mut session = connected(password, res);
        let mut out = Vec::new();
        assert_eq!(session.step(password, res, &mut out), Err(RfbError::WouldBlock));

        session.feed(&[3, 0, 0, 0, 0, 0, 4, 0, 3, 0]);
        assert_eq!(session.step(password, res, &mut out), Ok(Step::Advanced));
        assert!(session.take_update_request());
        assert!(!session.take_update_request());

        session.feed(&[4, 1, 0, 0, 0, 0, 0, 0x41]);
        assert_eq!(
            session.step(password, res, &mut out),
            Ok(Step::Input(InputEvent::Key { down: true, keysym: 0x41 }))
        );

        let pixels = vec![0x5Au8; 1024 * 768 * 4];
        session.send_update(&mut out, res, &pixels);
        assert_eq!(out.len(), 4 + 12 + pixels.len());
        assert_eq!(&out[16..], &pixels[..]);

        session.end();
        assert_eq!(session.step(password, res, &mut out), Ok(Step::Closed));
    }
}

#[test]
fn a_wrong_password_ends_a_session() {
    let res = pack_resolution(1024, 768);
    let mut out = Vec::new();
    let mut session = Session::start(&mut out);
    session.feed(b"RFB 003.008\n");
    assert_eq!(session.step(Some("secret"), res, &mut out), Ok(Step::Advanced));
    session.feed(&[2]);
    assert_eq!(session.step(Some("secret"), res, &mut out), Ok(Step::Advanced));
    session.feed(&[0u8; 16]);
    assert_eq!(session.step(Some("secret"), res, &mut out), Err(RfbError::VncAuthFailed));
    assert!(!session.is_running());
}

#[test]
fn a_refused_client_is_not_let_in_later() {
    let res = pack_resolution(1024, 768);
    let password = Some("secret");
    let mut out = Vec::new();
    let mut session = Session::start(&mut out);
    session.feed(b"RFB 003.008\n\x02");
    assert_eq!(session.step(password, res, &mut out), Ok(Step::Advanced));
    out.clear();
    assert_eq!(session.step(password, res, &mut out), Ok(Step::Advanced));
    let mut challenge = [0u8; 16];
    challenge.copy_from_slice(&out);

    // The wrong answer, and behind it the right one.
    session.feed(&[0u8; 16]);
    session.feed(&vnc_des_encrypt("secret", &challenge));
    session.feed(&[1]);
    out.clear();
    assert_eq!(session.step(password, res, &mut out), Err(RfbError::VncAuthFailed));
    assert_eq!(out, SECURITY_RESULT_FAILED.to_be_bytes());
    out.clear();
    for _ in 0..3 {
        assert_eq!(session.step(password, res, &mut out), Err(RfbError::VncAuthFailed));
    }
    assert!(out.is_empty());
    assert!(!session.is_running());

    // Nor after a refused selection.
    let mut session = Session::start(&mut out);
    session.feed(b"RFB 003.008\n\x01\x02");
    assert_eq!(session.step(password, res, &mut out), Ok(Step::Advanced));
    let refused = Err(RfbError::AuthenticationRequired);
    assert_eq!(session.step(password, res, &mut out), refused);
    assert_eq!(session.step(password, res, &mut out), refused);

    // Nor behind a message that is not known.
    let mut session = connected(password, res);
    session.feed(&[9, 4, 1, 0, 0, 0, 0, 0, 0x41]);
    let unknown = Err(RfbError::UnknownMessageType(9));
    assert_eq!(session.step(password, res, &mut out), unknown);
    assert_eq!(session.step(password, res, &mut out), unknown);
}
