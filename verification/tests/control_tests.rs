use bong::codec::encode;
use bong::control::background_control_decision;
use bong::control::service_background_request;
use bong::control::service_ui_request;
use bong::control::ui_control_decision;
use bong::ipc::encode_message;
use bong::ipc::IpcCommand;

#[test]
fn ping_yields_exactly_one_background_status_reply() {
    for worker_running in [true, false] {
        let request = encode(&IpcCommand::Ping);
        let outcome = service_background_request(request.as_slice(), worker_running);
        let expected = encode_message(&IpcCommand::BackgroundStatus(worker_running));
        assert_eq!(outcome.reply_bytes, Some(expected));
        assert!(!outcome.shutdown);
    }
}

#[test]
fn ping_yields_exactly_one_ui_status_reply() {
    let request = encode(&IpcCommand::Ping);
    let outcome = service_ui_request(request.as_slice());
    assert_eq!(outcome.reply_bytes, Some(encode_message(&IpcCommand::UIStatus(true))));
    assert!(!outcome.shutdown);
}

#[test]
fn stop_requests_shut_the_background_down_without_a_reply() {
    for c in [IpcCommand::StopBackground, IpcCommand::QuitAll] {
        let request = encode(&c);
        let outcome = service_background_request(request.as_slice(), true);
        assert_eq!(outcome.reply_bytes, None);
        assert!(outcome.shutdown);
    }
}

#[test]
fn close_requests_shut_the_ui_down_without_a_reply() {
    for c in [IpcCommand::CloseUI, IpcCommand::QuitAll] {
        let request = encode(&c);
        let outcome = service_ui_request(request.as_slice());
        assert_eq!(outcome.reply_bytes, None);
        assert!(outcome.shutdown);
    }
}

#[test]
fn unrelated_commands_are_ignored_without_a_reply() {
    for c in [
        IpcCommand::StartBackground,
        IpcCommand::StartUI,
        IpcCommand::Pong,
        IpcCommand::BackgroundStatus(true),
        IpcCommand::UIStatus(false),
    ] {
        let request = encode(&c);
        let bg = service_background_request(request.as_slice(), true);
        assert_eq!(bg.reply_bytes, None);
        assert!(!bg.shutdown);
    }
    let request = encode(&IpcCommand::CloseUI);
    let bg = service_background_request(request.as_slice(), true);
    assert_eq!(bg.reply_bytes, None);
    assert!(!bg.shutdown);
    let request = encode(&IpcCommand::StopBackground);
    let ui = service_ui_request(request.as_slice());
    assert_eq!(ui.reply_bytes, None);
    assert!(!ui.shutdown);
}

#[test]
fn malformed_payloads_are_dropped_silently_and_never_stop_the_server() {
    for bad in [&b""[..], b"garbage", b"\"Pin", b"{\"BackgroundStatus\":"] {
        let bg = service_background_request(bad, true);
        assert_eq!(bg.reply_bytes, None);
        assert!(!bg.shutdown);
        let ui = service_ui_request(bad);
        assert_eq!(ui.reply_bytes, None);
        assert!(!ui.shutdown);
    }
}

#[test]
fn handler_decisions_match_the_handlers() {
    let d = background_control_decision(&IpcCommand::Ping, false);
    assert_eq!(d.reply, Some(IpcCommand::BackgroundStatus(false)));
    assert!(!d.shutdown);
    let d = background_control_decision(&IpcCommand::StopBackground, true);
    assert_eq!(d.reply, None);
    assert!(d.shutdown);
    let d = ui_control_decision(&IpcCommand::Ping);
    assert_eq!(d.reply, Some(IpcCommand::UIStatus(true)));
    assert!(!d.shutdown);
    let d = ui_control_decision(&IpcCommand::QuitAll);
    assert_eq!(d.reply, None);
    assert!(d.shutdown);
}
