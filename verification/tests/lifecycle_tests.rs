use bong::background::BackgroundTaskManager;
use bong::codec::decode;
use bong::control::service_background_request;
use bong::control::service_ui_request;
use bong::frame::parse_frame;
use bong::ipc::IpcClient;
use bong::ipc::IpcCommand;
use bong::ipc::ReadOutcome;
use bong::supervisor::control_port;
use bong::supervisor::executable_name;
use bong::supervisor::graceful_stop_command;
use bong::supervisor::stop_all_order;
use bong::supervisor::ProcessManager;
use bong::supervisor::ProcessRole;
use bong::supervisor::StartAction;
use bong::tray::tray_directive;
use bong::tray::TrayEvent;
use bong::BACKGROUND_IPC_PORT;
use bong::UI_IPC_PORT;

#[test]
fn worker_start_then_stop_reports_not_running_and_no_task() {
    let mut worker = BackgroundTaskManager::new();
    assert!(!worker.is_running());
    assert!(!worker.has_live_task());
    worker.start();
    assert!(worker.is_running());
    assert!(worker.has_live_task());
    worker.stop();
    assert!(!worker.is_running());
    assert!(!worker.has_live_task());
}

#[test]
fn default_worker_is_stopped() {
    let worker = BackgroundTaskManager::default();
    assert!(!worker.is_running());
    assert!(!worker.has_live_task());
}

#[test]
fn second_start_while_child_is_alive_is_a_no_op() {
    let mut manager = ProcessManager::new();
    assert_eq!(manager.plan_start(ProcessRole::Background, false), StartAction::Spawn);
    manager.record_spawn(ProcessRole::Background);
    assert_eq!(manager.plan_start(ProcessRole::Background, true), StartAction::AlreadyRunning);
}

#[test]
fn start_after_the_child_exited_spawns_one_new_process() {
    let mut manager = ProcessManager::new();
    manager.record_spawn(ProcessRole::Ui);
    assert_eq!(manager.plan_start(ProcessRole::Ui, false), StartAction::Spawn);
}

#[test]
fn stop_clears_the_slot_even_if_the_graceful_command_was_ignored() {
    let mut manager = ProcessManager::new();
    manager.record_spawn(ProcessRole::Background);
    assert!(manager.needs_force_kill(ProcessRole::Background, true));
    manager.finish_stop(ProcessRole::Background);
    assert!(!manager.has_recorded_child(ProcessRole::Background));
    assert!(!manager.needs_force_kill(ProcessRole::Background, true));
}

#[test]
fn stop_of_one_role_leaves_the_other_alone() {
    let mut manager = ProcessManager::new();
    manager.record_spawn(ProcessRole::Background);
    manager.record_spawn(ProcessRole::Ui);
    manager.finish_stop(ProcessRole::Ui);
    assert!(manager.has_recorded_child(ProcessRole::Background));
    assert!(!manager.has_recorded_child(ProcessRole::Ui));
}

#[test]
fn role_constants_are_fixed() {
    assert_eq!(graceful_stop_command(ProcessRole::Background), IpcCommand::StopBackground);
    assert_eq!(graceful_stop_command(ProcessRole::Ui), IpcCommand::CloseUI);
    assert_eq!(control_port(ProcessRole::Background), BACKGROUND_IPC_PORT);
    assert_eq!(control_port(ProcessRole::Ui), UI_IPC_PORT);
    assert_eq!(executable_name(ProcessRole::Background), "bong-background.exe");
    assert_eq!(executable_name(ProcessRole::Ui), "bong-ui.exe");
    assert_eq!(stop_all_order(), [ProcessRole::Ui, ProcessRole::Background]);
}

#[test]
fn supervisor_scenario_start_ping_stop_all() {
    // The supervisor starts both children.
    let mut manager = ProcessManager::new();
    for role in [ProcessRole::Background, ProcessRole::Ui] {
        assert_eq!(manager.plan_start(role, false), StartAction::Spawn);
        manager.record_spawn(role);
    }
    assert!(manager.has_recorded_child(ProcessRole::Background));
    assert!(manager.has_recorded_child(ProcessRole::Ui));

    // It pings each child and receives a typed "up" status from both.
    let client = IpcClient::new(control_port(ProcessRole::Background));
    let request = client.request_bytes(&IpcCommand::Ping);
    let payload = parse_frame(request.as_slice()).expect("whole request frame");
    assert_eq!(decode(payload.as_slice()), Ok(IpcCommand::Ping));
    let bg_outcome = service_background_request(payload.as_slice(), true);
    let bg_reply = client.complete_exchange(true, ReadOutcome::Data(bg_outcome.reply_bytes.unwrap()));
    assert_eq!(bg_reply, Ok(Some(IpcCommand::BackgroundStatus(true))));

    let ui_outcome = service_ui_request(payload.as_slice());
    let ui_reply = client.complete_exchange(true, ReadOutcome::Data(ui_outcome.reply_bytes.unwrap()));
    assert_eq!(ui_reply, Ok(Some(IpcCommand::UIStatus(true))));

    // stop_all: UI first, then background; each process's server acts on
    // its graceful command, and each slot is cleared unconditionally.
    for role in stop_all_order() {
        let stop_request = bong::codec::encode(&graceful_stop_command(role));
        let shutdown = match role {
            ProcessRole::Background => {
                service_background_request(stop_request.as_slice(), true).shutdown
            }
            ProcessRole::Ui => service_ui_request(stop_request.as_slice()).shutdown,
        };
        assert!(shutdown);
        manager.finish_stop(role);
    }

    // A later liveness check on both roles reports "not running".
    assert!(!manager.has_recorded_child(ProcessRole::Background));
    assert!(!manager.has_recorded_child(ProcessRole::Ui));
}

#[test]
fn tray_directives_drive_the_supervisor() {
    let open = tray_directive(&TrayEvent::OpenClicked);
    assert!(open.start_ui && !open.stop_all && !open.exit_loop);
    let quit = tray_directive(&TrayEvent::QuitClicked);
    assert!(!quit.start_ui && quit.stop_all && quit.exit_loop);
    let other = tray_directive(&TrayEvent::Other);
    assert!(!other.start_ui && !other.stop_all && !other.exit_loop);
}
