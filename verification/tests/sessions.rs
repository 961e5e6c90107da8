use jitserver::catalog::{read_script_entries, script_name_key, BundledSources};
use jitserver::debugger::DebuggerApp;
use jitserver::device::{AppInfo, DeviceInfo, ProcessInfo, WorkerCommand, WorkerEvent};
use jitserver::host::HostSystem;
use jitserver::packets::prepare_memory_region_packets;
use jitserver::worker::{DeviceWorker, WorkerAction, WorkerEffect, WorkerReply, WorkerStep};

const LINUX: HostSystem = HostSystem::Linux;

fn device(udid: &str) -> DeviceInfo {
    DeviceInfo {
        udid: udid.to_string(),
        ..DeviceInfo::default()
    }
}

/// A window with one device, one app and the bundled scripts.
fn window() -> DebuggerApp {
    let sources = BundledSources {
        geode: "g".to_string(),
        macios: "m".to_string(),
        universal: "u".to_string(),
        utm_dolphinios_flycast: "f".to_string(),
    };
    let mut app = DebuggerApp::new(0);
    app.refresh_scripts(Ok(read_script_entries(&sources, &vec![])));
    app.handle_event(WorkerEvent::Devices(Ok(vec![device("d")])), 0, &LINUX);
    let apps = vec![AppInfo {
        bundle_id: "com.utm".to_string(),
        name: "UTM".to_string(),
    }];
    app.handle_event(WorkerEvent::Apps(Ok(apps)), 0, &LINUX);
    app.select_app(0, Ok(String::new()));
    app.outbox.clear();
    app
}

/// Lets the window hear of a step, and says what is to be done next. The scripts that were started
/// are added to `started`.
fn hear(app: &mut DebuggerApp, step: WorkerStep, started: &mut Vec<String>) -> WorkerAction {
    for effect in step.effects {
        match effect {
            WorkerEffect::Emit(event) => app.handle_event(event, 0, &LINUX),
            WorkerEffect::StartScript { script, .. } => started.push(script.name),
            _ => {}
        }
    }
    step.action
}

/// Works off the window's only command with the given replies.
fn work_off(
    app: &mut DebuggerApp,
    worker: &mut DeviceWorker,
    replies: Vec<WorkerReply>,
) -> Vec<String> {
    assert_eq!(app.outbox.len(), 1);
    let command = app.outbox.pop().unwrap();
    let mut started = Vec::new();
    let mut action = hear(app, worker.begin(command), &mut started);
    assert!(app.busy || matches!(action, WorkerAction::Finish));
    for reply in replies {
        assert!(worker.accepts(&reply));
        action = hear(app, worker.resume(reply), &mut started);
    }
    assert!(matches!(action, WorkerAction::Finish));
    assert!(!app.busy);
    started
}

#[test]
fn enabling_without_a_script_detaches_again() {
    let (mut app, mut worker) = (window(), DeviceWorker::new());
    app.launch();
    let started = work_off(
        &mut app,
        &mut worker,
        vec![
            WorkerReply::Launched(Ok(77)),
            WorkerReply::Connected(Ok(())),
            WorkerReply::Response(Ok("T11".to_string())),
            WorkerReply::Response(Ok("OK".to_string())),
        ],
    );
    assert!(started.is_empty());
    assert!(!app.attached && !app.script_running);
    assert_eq!(app.entered_pid(), Some(77));
    assert_eq!(worker.active_debug, None);
}

#[test]
fn enabling_with_a_script_runs_it_until_it_is_stopped() {
    let (mut app, mut worker) = (window(), DeviceWorker::new());
    app.launch_and_run();
    assert!(app.script_running);
    let started = work_off(
        &mut app,
        &mut worker,
        vec![
            WorkerReply::Launched(Ok(77)),
            WorkerReply::Connected(Ok(())),
            WorkerReply::Response(Ok("T11".to_string())),
        ],
    );
    assert_eq!(started, ["UTM-DolphiniOS-Flycast.js"]);
    assert!(app.attached && app.script_running && app.can_stop());
    assert_eq!(worker.active_debug, Some(77));
    app.stop();
    let stopped = WorkerReply::Response(Err("lost".to_string()));
    work_off(&mut app, &mut worker, vec![stopped]);
    assert!(!app.attached && !app.script_running && !app.can_stop());
    assert_eq!(worker.active_debug, None);
}

#[test]
fn a_script_that_cannot_start_is_not_shown_as_running() {
    let (mut app, mut worker) = (window(), DeviceWorker::new());
    app.launch_and_run();
    work_off(
        &mut app,
        &mut worker,
        vec![
            WorkerReply::Launched(Ok(77)),
            WorkerReply::Connected(Err("refused".to_string())),
        ],
    );
    assert!(!app.script_running && !app.attached);
    assert_eq!(app.logs.last().unwrap(), "Attach failed: refused");
}

/// What is always true of the window.
fn sound(app: &DebuggerApp) -> bool {
    app.selected_device.is_some() == !app.devices.is_empty()
        && app.selected_device.map_or(true, |index| index < app.devices.len())
        && app
            .selected_script
            .map_or(true, |index| index < app.script_entries.len())
        && (!app.has_successful_process_list || app.has_logged_process_list)
        && app.device_status.as_ref().map_or(true, |status| status.is_ok())
}

#[test]
fn the_window_stays_sound_and_its_log_grows() {
    let mut app = window();
    let mut steps: Vec<Box<dyn FnMut(&mut DebuggerApp)>> = vec![
        Box::new(|app| app.handle_event(WorkerEvent::Devices(Ok(vec![])), 1, &LINUX)),
        Box::new(|app| {
            let devices = vec![device("x"), device("d")];
            app.handle_event(WorkerEvent::Devices(Ok(devices)), 2, &LINUX)
        }),
        Box::new(|app| app.select_device(1, 3)),
        Box::new(|app| {
            let processes = vec![ProcessInfo {
                pid: 5,
                name: "geode".to_string(),
            }];
            app.handle_event(WorkerEvent::Processes(Ok(processes)), 4, &LINUX)
        }),
        Box::new(|app| app.select_process(0, Ok(String::new()))),
        Box::new(|app| app.attach()),
        Box::new(|app| app.attach_and_run()),
        Box::new(|app| app.maybe_refresh_processes(9_000_000_000)),
        Box::new(|app| {
            app.refresh_scripts(Ok(vec![]));
        }),
        Box::new(|app| {
            app.delete_selected_script();
        }),
        Box::new(|app| {
            app.refresh_scripts(Err("gone".to_string()));
        }),
        Box::new(|app| {
            let error = Err("lost".to_string());
            app.handle_event(WorkerEvent::Devices(error), 5, &LINUX)
        }),
        Box::new(|app| app.stop()),
        Box::new(|app| app.worker_unavailable()),
    ];
    assert!(sound(&app));
    for step in steps.iter_mut() {
        let (lines, commands) = (app.logs.clone(), app.outbox.len());
        step(&mut app);
        assert!(sound(&app));
        assert_eq!(app.logs[..lines.len()], lines[..]);
        assert!(app.outbox.len() <= commands + 1);
        if app.outbox.len() > commands {
            let udid = match app.outbox.last().unwrap() {
                WorkerCommand::RefreshDevices | WorkerCommand::Stop => None,
                WorkerCommand::ListApps { udid }
                | WorkerCommand::ListProcesses { udid }
                | WorkerCommand::LaunchAndAttach { udid, .. }
                | WorkerCommand::LaunchAndAttachAndRunScript { udid, .. }
                | WorkerCommand::Attach { udid, .. }
                | WorkerCommand::AttachAndRun { udid, .. } => Some(udid.clone()),
            };
            assert!(udid.is_none() || udid == app.selected_udid());
        }
    }
}

#[test]
fn keys_are_their_own_keys() {
    for name in ["UTM-DolphiniOS-Flycast", "Manic EMU", "\u{e9}a1"] {
        let key = script_name_key(name);
        assert_eq!(script_name_key(&key), key);
        assert_eq!(script_name_key(&name.to_ascii_uppercase()), key);
    }
}

#[test]
fn every_page_of_a_region_has_a_packet() {
    let (start, size): (u64, u64) = (0x1_2345_0000, 5 * 16 * 1024 - 3);
    let bytes = prepare_memory_region_packets(start, size);
    let text = String::from_utf8(bytes).unwrap();
    let addresses: Vec<u64> = text
        .split('$')
        .skip(1)
        .map(|packet| {
            let body = packet.strip_prefix('M').unwrap();
            u64::from_str_radix(body.split(',').next().unwrap(), 16).unwrap()
        })
        .collect();
    let expected: Vec<u64> = (0..5).map(|page| start + page * 16 * 1024).collect();
    assert_eq!(addresses, expected);
}
