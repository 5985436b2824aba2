use bong::codec::decode;
use bong::frame::frame_payload;
use bong::frame::parse_frame;
use bong::ipc::encode_message;
use bong::ipc::IpcCommand;

#[test]
fn frame_then_parse_recovers_the_payload() {
    let payload = b"hello frame".to_vec();
    let framed = frame_payload(payload.as_slice());
    assert_eq!(parse_frame(framed.as_slice()), Some(payload));
}

#[test]
fn header_is_the_big_endian_length() {
    let payload = vec![9u8; 300];
    let framed = frame_payload(payload.as_slice());
    assert_eq!(&framed[..4], &[0, 0, 1, 44]);
    assert_eq!(&framed[4..], payload.as_slice());
}

#[test]
fn empty_payload_frames_and_parses() {
    let framed = frame_payload(&[]);
    assert_eq!(framed, vec![0u8, 0, 0, 0]);
    assert_eq!(parse_frame(framed.as_slice()), Some(Vec::new()));
}

#[test]
fn every_truncation_of_a_frame_is_incomplete() {
    let framed = frame_payload(b"partial delivery");
    for n in 0..framed.len() {
        assert_eq!(parse_frame(&framed[..n]), None);
    }
}

#[test]
fn trailing_bytes_do_not_disturb_the_first_frame() {
    let payload = b"first".to_vec();
    let mut framed = frame_payload(payload.as_slice());
    framed.extend_from_slice(b"second message still buffered");
    assert_eq!(parse_frame(framed.as_slice()), Some(payload));
}

#[test]
fn framed_message_round_trips_for_every_command() {
    for c in [
        IpcCommand::StartBackground,
        IpcCommand::StopBackground,
        IpcCommand::StartUI,
        IpcCommand::CloseUI,
        IpcCommand::QuitAll,
        IpcCommand::Ping,
        IpcCommand::Pong,
        IpcCommand::BackgroundStatus(true),
        IpcCommand::BackgroundStatus(false),
        IpcCommand::UIStatus(true),
        IpcCommand::UIStatus(false),
    ] {
        let wire = encode_message(&c);
        let payload = parse_frame(wire.as_slice()).expect("whole frame must parse");
        assert_eq!(decode(payload.as_slice()), Ok(c));
    }
}
