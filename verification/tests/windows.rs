use jitserver::catalog::{
    read_script_entries, BundledSources, ListedFile, ScriptEntry, DEFAULT_SCRIPT_NAME,
};
use jitserver::debugger::{
    device_label, process_label, DebuggerApp, PROCESS_REFRESH_INTERVAL,
};
use jitserver::device::{
    AppInfo, CheckStatus, DeviceInfo, DeviceStatus, ProcessInfo, WorkerCommand, WorkerEvent,
};
use jitserver::display::Colour;
use jitserver::host::HostSystem;
use jitserver::imports::{
    ImportAction, ImportReply, PathTrouble, PickedScript, ScriptImport,
};

const LINUX: HostSystem = HostSystem::Linux;

fn device(udid: &str) -> DeviceInfo {
    DeviceInfo {
        udid: udid.to_string(),
        name: format!("Phone {udid}"),
        product_version: "26.0".to_string(),
        connection: "USB".to_string(),
    }
}

fn app_info(name: &str, bundle_id: &str) -> AppInfo {
    AppInfo {
        bundle_id: bundle_id.to_string(),
        name: name.to_string(),
    }
}

fn process(pid: u32, name: &str) -> ProcessInfo {
    ProcessInfo {
        pid,
        name: name.to_string(),
    }
}

fn entries(files: &[(u64, &str)]) -> Vec<ScriptEntry> {
    let sources = BundledSources {
        geode: "geode source".to_string(),
        macios: "macios source".to_string(),
        universal: "universal source".to_string(),
        utm_dolphinios_flycast: "utm source".to_string(),
    };
    let files = files
        .iter()
        .map(|(id, name)| ListedFile {
            id: *id,
            extension: Some("js".to_string()),
            file_name: Some(name.to_string()),
        })
        .collect();
    read_script_entries(&sources, &files)
}

fn no_file() -> Result<String, String> {
    Err("no file".to_string())
}

/// A window with the listed scripts, the default one selected, and nothing left to send.
fn window(files: &[(u64, &str)]) -> DebuggerApp {
    let mut app = DebuggerApp::new(0);
    if let Some(index) = app.refresh_scripts(Ok(entries(files))) {
        app.load_script(index, no_file());
    }
    assert!(app.select_script_by_name(DEFAULT_SCRIPT_NAME, no_file()));
    app.outbox.clear();
    app
}

/// A window with a device that has two apps and two processes.
fn busy_window(files: &[(u64, &str)]) -> DebuggerApp {
    let mut app = window(files);
    app.handle_event(WorkerEvent::Devices(Ok(vec![device("a"), device("b")])), 1, &LINUX);
    app.handle_event(
        WorkerEvent::Apps(Ok(vec![
            app_info("UTM", "com.utm"),
            app_info("\u{c9}cole", "com.ecole"),
            app_info("LiveContainer", "com.live"),
        ])),
        1,
        &LINUX,
    );
    app.handle_event(
        WorkerEvent::Processes(Ok(vec![process(12, "geode"), process(345, "Mail")])),
        1,
        &LINUX,
    );
    app.outbox.clear();
    app.logs.clear();
    app
}

fn udid_listed(command: &WorkerCommand) -> Option<&str> {
    match command {
        WorkerCommand::ListApps { udid } => Some(udid.as_str()),
        _ => None,
    }
}

#[test]
fn the_devices_are_asked_for_at_the_start() {
    let app = DebuggerApp::new(5);
    assert_eq!(app.outbox.len(), 1);
    assert!(matches!(app.outbox[0], WorkerCommand::RefreshDevices));
    assert_eq!(app.last_pid_refresh, 5);
    assert_eq!(app.selected_device_label(), "Select a device");
    assert_eq!(app.script_label(), "No script selected");
    assert!(app.status_text().is_empty());
}

#[test]
fn the_default_script_is_selected_at_the_start() {
    let app = window(&[(1, "Universal.js"), (2, "aaa.js")]);
    assert_eq!(app.script_label(), "universal.js");
    assert_eq!(
        app.current_script(),
        Some(("universal.js".to_string(), "universal source".to_string()))
    );
    assert!(!app.selected_script_is_editable());
    assert_eq!(app.logs, ["Failed to read script aaa.js: no file"]);
}

#[test]
fn the_first_device_is_selected_by_itself() {
    let mut app = window(&[]);
    app.handle_event(
        WorkerEvent::Devices(Ok(vec![device("a"), device("b")])),
        7,
        &LINUX,
    );
    assert_eq!(app.selected_udid(), Some("a".to_string()));
    assert_eq!(app.outbox.len(), 1);
    assert_eq!(udid_listed(&app.outbox[0]), Some("a"));
    assert_eq!(app.last_pid_refresh, 7);
    assert_eq!(
        app.status_text(),
        ["Checking wireless debugging, Developer Mode, and DDI..."]
    );
}

#[test]
fn a_selected_device_stays_selected() {
    let mut app = busy_window(&[]);
    app.select_device(1, 2);
    app.outbox.clear();
    app.handle_event(
        WorkerEvent::Apps(Ok(vec![app_info("UTM", "com.utm")])),
        3,
        &LINUX,
    );
    app.handle_event(
        WorkerEvent::Devices(Ok(vec![device("c"), device("b"), device("a")])),
        4,
        &LINUX,
    );
    assert_eq!(app.selected_device, Some(1));
    assert_eq!(app.selected_udid(), Some("b".to_string()));
    assert_eq!(app.apps.len(), 1);
    assert!(app.outbox.is_empty());
    app.handle_event(WorkerEvent::Devices(Ok(vec![device("c")])), 5, &LINUX);
    assert_eq!(app.selected_udid(), Some("c".to_string()));
    assert!(app.apps.is_empty());
    assert_eq!(app.outbox.len(), 1);
    app.handle_event(WorkerEvent::Devices(Ok(vec![])), 6, &LINUX);
    assert_eq!(app.selected_device, None);
    assert_eq!(app.outbox.len(), 1);
}

#[test]
fn selecting_a_device_forgets_the_last_one() {
    let mut app = busy_window(&[]);
    app.selected_process = Some(12);
    app.handle_event(
        WorkerEvent::DeviceStatus(DeviceStatus {
            wireless_debugging: CheckStatus::Success,
            developer_mode: CheckStatus::Failed("off".to_string()),
            developer_disk_image: CheckStatus::Success,
        }),
        2,
        &LINUX,
    );
    assert_eq!(
        app.status_text(),
        [
            "Wireless Debugging: Success",
            "Developer Mode: Failed: off",
            "Developer Disk Image: Success"
        ]
    );
    app.select_device(1, 9);
    assert!(app.apps.is_empty() && app.processes.is_empty());
    assert_eq!(app.selected_process, None);
    assert!(app.device_status.is_none());
    assert!(!app.has_successful_process_list && !app.has_logged_process_list);
    assert_eq!(udid_listed(&app.outbox[0]), Some("b"));
    app.select_device(7, 9);
    assert_eq!(app.selected_udid(), None);
    assert_eq!(app.outbox.len(), 1);
}

#[test]
fn devices_and_processes_have_labels() {
    let mut shown = device("a");
    assert_eq!(device_label(&shown), "Phone a OS 26.0 (USB)");
    shown.product_version = String::new();
    assert_eq!(device_label(&shown), "Phone a (USB)");
    assert_eq!(process_label(&process(12, "geode")), "geode (12)");
    assert_eq!(busy_window(&[]).selected_device_label(), "Phone a OS 26.0 (USB)");
}

#[test]
fn failures_are_logged() {
    let mut app = window(&[]);
    app.logs.clear();
    let no = || "no".to_string();
    app.handle_event(WorkerEvent::Devices(Err(no())), 1, &LINUX);
    app.handle_event(
        WorkerEvent::Devices(Err("device socket io failed (os error 10061)".to_string())),
        1,
        &HostSystem::Windows,
    );
    app.handle_event(WorkerEvent::Apps(Err(no())), 1, &LINUX);
    app.handle_event(WorkerEvent::Processes(Err(no())), 1, &LINUX);
    app.handle_event(WorkerEvent::Launched(Err(no())), 1, &LINUX);
    app.handle_event(WorkerEvent::Attached(Err(no())), 1, &LINUX);
    app.handle_event(WorkerEvent::DebugResponse(Err(no())), 1, &LINUX);
    app.handle_event(WorkerEvent::ScriptFinished(Err(no())), 1, &LINUX);
    app.handle_event(WorkerEvent::Log("line".to_string()), 1, &LINUX);
    assert_eq!(
        app.logs,
        [
            "Device refresh failed: no",
            "Device refresh failed: device socket io failed (os error 10061) Make sure you have Apple Devices/iTunes installed.",
            "App listing failed: no",
            "Process listing failed: no",
            "Launch failed: no",
            "Attach failed: no",
            "Command failed: no",
            "Script failed: no",
            "line"
        ]
    );
    let refused = app.refresh_scripts(Err("no folder".to_string()));
    assert_eq!(refused, None);
    assert_eq!(app.logs.last().unwrap(), "Failed to load scripts: no folder");
}

#[test]
fn lists_are_logged_with_their_length() {
    let mut app = window(&[]);
    app.logs.clear();
    app.selected_app = Some(3);
    app.handle_event(
        WorkerEvent::Apps(Ok(vec![app_info("UTM", "com.utm")])),
        1,
        &LINUX,
    );
    assert_eq!(app.selected_app, None);
    app.handle_event(WorkerEvent::Processes(Ok(vec![process(1, "a")])), 8, &LINUX);
    app.handle_event(WorkerEvent::Processes(Ok(vec![])), 9, &LINUX);
    assert_eq!(
        app.logs,
        [
            "Loaded 1 app(s) with get-task-allow",
            "Loaded 1 running process(es)"
        ]
    );
    assert_eq!(app.last_pid_refresh, 9);
    assert!(app.has_successful_process_list);
    app.handle_event(WorkerEvent::Processes(Err("no".to_string())), 10, &LINUX);
    assert!(!app.has_successful_process_list);
    assert_eq!(app.last_pid_refresh, 9);
}

#[test]
fn a_selected_process_stays_while_it_is_listed() {
    let mut app = busy_window(&[]);
    app.selected_process = Some(345);
    app.handle_event(
        WorkerEvent::Processes(Ok(vec![process(345, "Mail")])),
        2,
        &LINUX,
    );
    assert_eq!(app.selected_process, Some(345));
    app.handle_event(WorkerEvent::Processes(Ok(vec![])), 3, &LINUX);
    assert_eq!(app.selected_process, None);
}

#[test]
fn a_launched_process_can_be_attached_to() {
    let mut app = busy_window(&[]);
    app.handle_event(WorkerEvent::Launched(Ok(31337)), 2, &LINUX);
    assert_eq!(app.manual_pid, "31337");
    assert_eq!(app.selected_process, Some(31337));
    assert_eq!(app.entered_pid(), Some(31337));
    assert_eq!(app.logs, ["Launched process pid=31337"]);
    assert!(app.can_attach());
    app.attach();
    assert!(matches!(
        &app.outbox[0],
        WorkerCommand::Attach { udid, pid: 31337 } if udid == "a"
    ));
}

#[test]
fn lights_follow_the_worker() {
    let grey = Colour {
        red: 140,
        green: 140,
        blue: 140,
    };
    let mut app = busy_window(&[]);
    assert_eq!(app.attached_colour(), grey);
    assert_eq!(app.script_running_colour(), grey);
    app.handle_event(WorkerEvent::Attached(Ok("T11".to_string())), 2, &LINUX);
    assert_eq!(
        app.attached_colour(),
        Colour {
            red: 80,
            green: 200,
            blue: 120
        }
    );
    app.script_running = true;
    assert_eq!(
        app.script_running_colour(),
        Colour {
            red: 255,
            green: 196,
            blue: 64
        }
    );
    app.handle_event(WorkerEvent::DebugResponse(Ok("OK".to_string())), 3, &LINUX);
    assert!(!app.attached && app.script_running);
    app.handle_event(WorkerEvent::ScriptFinished(Ok(())), 4, &LINUX);
    assert!(!app.script_running);
    app.script_running = true;
    app.handle_event(WorkerEvent::Attached(Err("no".to_string())), 5, &LINUX);
    assert!(!app.script_running);
    app.script_running = true;
    app.handle_event(WorkerEvent::ScriptFinished(Err("no".to_string())), 6, &LINUX);
    assert!(!app.script_running);
    app.handle_event(WorkerEvent::Busy(true), 7, &LINUX);
    assert!(app.busy);
    assert_eq!(
        app.logs,
        [
            "Attached: T11",
            "debugserver: OK",
            "Script finished",
            "Attach failed: no",
            "Script failed: no"
        ]
    );
}

#[test]
fn filters_match_names_and_identifiers() {
    let mut app = busy_window(&[]);
    let shown = |app: &DebuggerApp| -> Vec<String> {
        app.filtered_apps().into_iter().map(|app| app.name).collect()
    };
    assert_eq!(shown(&app).len(), 3);
    app.app_filter = " \t".to_string();
    assert_eq!(shown(&app).len(), 3);
    app.app_filter = " uTm ".to_string();
    assert_eq!(shown(&app), ["UTM"]);
    app.app_filter = "COM.LIVE".to_string();
    assert_eq!(shown(&app), ["LiveContainer"]);
    app.app_filter = "\u{c9}C".to_string();
    assert_eq!(shown(&app), ["\u{c9}cole"]);
    app.app_filter = "nothing".to_string();
    assert!(shown(&app).is_empty());
}

#[test]
fn process_filters_match_names_and_numbers() {
    let mut app = busy_window(&[]);
    let shown = |app: &DebuggerApp| -> Vec<u32> {
        app.filtered_processes()
            .into_iter()
            .map(|process| process.pid)
            .collect()
    };
    assert_eq!(shown(&app), [12, 345]);
    app.process_filter = "GEO".to_string();
    assert_eq!(shown(&app), [12]);
    app.process_filter = "34".to_string();
    assert_eq!(shown(&app), [345]);
    app.process_filter = "  ".to_string();
    assert_eq!(shown(&app), [12, 345]);
}

#[test]
fn selecting_an_app_picks_its_script() {
    let mut app = busy_window(&[(1, "Utm-dolphinios-flycast.js")]);
    assert_eq!(app.recommended_script_file("UTM"), None);
    app.select_app(0, no_file());
    assert_eq!(app.selected_app, Some(0));
    assert_eq!(app.selected_bundle_id(), Some("com.utm".to_string()));
    assert_eq!(app.script_label(), "UTM-DolphiniOS-Flycast.js");
    assert_eq!(app.script_source, "utm source");
    assert_eq!(
        app.logs,
        ["Auto-selected script UTM-DolphiniOS-Flycast.js for UTM"]
    );
    app.select_app(1, no_file());
    assert_eq!(app.script_label(), "UTM-DolphiniOS-Flycast.js");
    assert_eq!(app.logs.len(), 1);
    app.select_app(9, no_file());
    assert_eq!(app.selected_app, Some(1));
}

#[test]
fn selecting_the_container_comes_with_advice() {
    let mut app = busy_window(&[]);
    app.app_filter = "live".to_string();
    app.select_app(0, no_file());
    assert_eq!(
        app.logs,
        ["LiveContainer selected. Ensure you select the corresponding script for your containerized app."]
    );
    assert_eq!(app.selected_bundle_id(), Some("com.live".to_string()));
    app.maybe_log_livecontainer_selected("livecontainer");
    assert_eq!(app.logs.len(), 2);
    app.maybe_log_livecontainer_selected("Live Container");
    assert_eq!(app.logs.len(), 2);
}

#[test]
fn selecting_a_process_enters_its_number() {
    let mut app = busy_window(&[]);
    app.select_process(0, no_file());
    assert_eq!(app.selected_process, Some(12));
    assert_eq!(app.manual_pid, "12");
    assert_eq!(app.entered_pid(), Some(12));
    assert_eq!(app.script_label(), "Geode.js");
    assert_eq!(app.logs, ["Auto-selected script Geode.js for geode"]);
    app.select_process(5, no_file());
    assert_eq!(app.selected_process, Some(12));
}

#[test]
fn an_unreadable_recommended_file_is_noted_twice() {
    let mut app = window(&[]);
    app.logs.clear();
    app.script_entries = entries(&[(4, "mine.js")]);
    app.auto_select_script("Target", Some("MINE.js"), no_file());
    assert_eq!(
        app.logs,
        [
            "Failed to read script mine.js: no file",
            "Auto-selected script MINE.js for Target"
        ]
    );
    app.auto_select_script("Target", Some("missing.js"), no_file());
    app.auto_select_script("Target", None, no_file());
    assert_eq!(app.logs.len(), 2);
}

#[test]
fn an_entered_number_selects_the_process() {
    let mut app = busy_window(&[]);
    app.edit_manual_pid(" 345 ".to_string());
    assert_eq!(app.selected_process, Some(345));
    app.edit_manual_pid("345x".to_string());
    assert_eq!(app.selected_process, None);
    assert!(!app.can_attach());
}

#[test]
fn lists_are_asked_for_where_a_device_is_selected() {
    let mut app = window(&[]);
    app.logs.clear();
    app.refresh_selected_device_lists();
    app.refresh_processes(4);
    assert_eq!(app.logs, ["Select a device first"]);
    assert!(app.outbox.is_empty());
    assert_eq!(app.last_pid_refresh, 0);
    let mut app = busy_window(&[]);
    app.refresh_selected_device_lists();
    app.refresh_processes(4);
    app.refresh_devices();
    assert_eq!(udid_listed(&app.outbox[0]), Some("a"));
    assert!(matches!(&app.outbox[1], WorkerCommand::ListProcesses { udid } if udid == "a"));
    assert!(matches!(app.outbox[2], WorkerCommand::RefreshDevices));
    assert_eq!(app.last_pid_refresh, 4);
}

#[test]
fn processes_are_renewed_once_per_interval() {
    let mut app = busy_window(&[]);
    app.maybe_refresh_processes(PROCESS_REFRESH_INTERVAL);
    assert!(app.outbox.is_empty());
    app.maybe_refresh_processes(1 + PROCESS_REFRESH_INTERVAL);
    assert_eq!(app.outbox.len(), 1);
    app.maybe_refresh_processes(PROCESS_REFRESH_INTERVAL * 2);
    assert_eq!(app.outbox.len(), 1);
    app.busy = true;
    app.maybe_refresh_processes(PROCESS_REFRESH_INTERVAL * 9);
    assert_eq!(app.outbox.len(), 1);
    app.busy = false;
    app.has_successful_process_list = false;
    app.maybe_refresh_processes(PROCESS_REFRESH_INTERVAL * 9);
    assert_eq!(app.outbox.len(), 1);
    app.has_successful_process_list = true;
    app.maybe_refresh_processes(0);
    assert_eq!(app.outbox.len(), 1);
}

#[test]
fn launching_needs_an_app() {
    let mut app = busy_window(&[]);
    assert!(!app.can_launch() && !app.can_launch_and_run());
    app.launch();
    app.launch_and_run();
    assert!(app.outbox.is_empty() && app.logs.is_empty());
    app.select_app(0, no_file());
    assert!(app.can_launch() && app.can_launch_and_run());
    app.launch();
    assert!(matches!(
        &app.outbox[0],
        WorkerCommand::LaunchAndAttach { udid, bundle_id } if udid == "a" && bundle_id == "com.utm"
    ));
    assert!(!app.script_running);
    app.launch_and_run();
    assert!(app.script_running);
    assert!(matches!(
        &app.outbox[1],
        WorkerCommand::LaunchAndAttachAndRunScript { udid, bundle_id, name, source }
            if udid == "a"
                && bundle_id == "com.utm"
                && name == "UTM-DolphiniOS-Flycast.js"
                && source == "utm source"
    ));
    app.script_name = "  ".to_string();
    assert!(!app.can_launch_and_run());
}

#[test]
fn attaching_says_what_is_missing() {
    let mut app = window(&[]);
    app.logs.clear();
    app.attach();
    app.attach_and_run();
    let mut with_device = busy_window(&[]);
    with_device.attach();
    with_device.attach_and_run();
    with_device.edit_manual_pid("7".to_string());
    with_device.script_name = " ".to_string();
    with_device.attach_and_run();
    assert_eq!(app.logs, ["Select a device first", "Select a device first"]);
    assert_eq!(
        with_device.logs,
        [
            "Enter a numeric PID",
            "Enter a numeric PID",
            "Select or name a script first"
        ]
    );
    assert!(with_device.outbox.is_empty());
}

#[test]
fn attaching_with_a_script_runs_it() {
    let mut app = busy_window(&[]);
    app.edit_manual_pid("7".to_string());
    assert!(app.can_attach_and_run());
    app.attach_and_run();
    assert!(app.script_running && app.can_stop());
    assert!(matches!(
        &app.outbox[0],
        WorkerCommand::AttachAndRun { udid, pid: 7, name, source }
            if udid == "a" && name == "universal.js" && source == "universal source"
    ));
    app.attached = true;
    app.stop();
    assert!(!app.script_running && !app.attached && !app.can_stop());
    assert!(matches!(app.outbox[1], WorkerCommand::Stop));
    app.script_running = true;
    app.worker_unavailable();
    assert!(!app.script_running);
    assert_eq!(app.logs, ["Worker is unavailable"]);
}

#[test]
fn the_log_is_copied_and_cleared() {
    let mut app = window(&[]);
    app.logs.clear();
    assert_eq!(app.log_text(), "");
    app.log("one".to_string());
    assert_eq!(app.log_text(), "one");
    app.log("two".to_string());
    assert_eq!(app.copy_logs(), "one\ntwo");
    assert_eq!(app.log_text(), "one\ntwo\nCopied logs to clipboard");
    app.clear_logs();
    assert!(app.logs.is_empty());
}

#[test]
fn a_selected_script_stays_selected_by_name() {
    let mut app = window(&[(1, "zoo.js")]);
    assert_eq!(app.script_index("ZOO.JS"), Some(4));
    assert_eq!(app.script_file(4), Some(1));
    app.load_script(4, Ok("zoo source".to_string()));
    assert!(app.selected_script_is_editable() && app.can_delete_script());
    assert_eq!(app.script_hints(), ["Imported scripts can be deleted."]);
    assert!(app.can_import_script() && app.can_switch_script());
    app.script_running = true;
    assert!(!app.can_delete_script());
    assert!(!app.can_import_script() && !app.can_switch_script());
    assert_eq!(
        app.script_hints(),
        [
            "Script switching is disabled while a script is running.",
            "Imported scripts can be deleted."
        ]
    );
    let load = app.refresh_scripts(Ok(entries(&[(2, "a.js"), (1, "zoo.js")])));
    assert_eq!(load, Some(5));
    assert_eq!(app.selected_script, Some(5));
    let load = app.refresh_scripts(Ok(entries(&[])));
    assert_eq!(load, Some(0));
    assert_eq!(app.selected_script, None);
    assert_eq!(app.script_hints()[1], "Built-in scripts cannot be deleted.");
    assert_eq!(app.refresh_scripts(Ok(vec![])), None);
    assert!(!app.select_script_by_name("zoo.js", no_file()));
    app.load_script(9, no_file());
    assert_eq!(app.selected_script, None);
}

#[test]
fn only_imported_scripts_are_deleted() {
    let mut app = window(&[(6, "zoo.js")]);
    app.logs.clear();
    assert!(app.delete_selected_script().is_none());
    assert_eq!(app.logs, ["Built-in script universal.js cannot be deleted"]);
    app.load_script(4, Ok("zoo source".to_string()));
    let deletion = app.delete_selected_script().unwrap();
    assert_eq!((deletion.name.as_str(), deletion.file), ("zoo.js", 6));
    let refused = app.script_deleted(
        "zoo.js",
        Err(PathTrouble {
            path: "/s/zoo.js".to_string(),
            error: "denied".to_string(),
        }),
    );
    assert!(!refused);
    assert_eq!(app.selected_script, Some(4));
    assert!(app.script_deleted("zoo.js", Ok(())));
    assert_eq!(app.selected_script, None);
    assert!(app.delete_selected_script().is_none());
    assert_eq!(
        app.logs[1..],
        [
            "Failed to delete script /s/zoo.js: denied",
            "Deleted script zoo.js",
            "Select a script first"
        ]
    );
}

/// Hands an import its next reply.
fn resume(import: &mut ScriptImport, app: &mut DebuggerApp, reply: ImportReply) -> ImportAction {
    assert!(import.accepts(&reply));
    import.resume(app, reply)
}

fn trouble(path: &str) -> PathTrouble {
    PathTrouble {
        path: path.to_string(),
        error: "denied".to_string(),
    }
}

fn picked(file_name: Option<&str>) -> ImportReply {
    ImportReply::Picked(PickedScript::Read {
        source: "my source".to_string(),
        file_name: file_name.map(|name| name.to_string()),
    })
}

#[test]
fn an_imported_script_is_written_listed_and_selected() {
    let mut app = window(&[]);
    app.logs.clear();
    let (mut import, action) = ScriptImport::begin();
    assert!(matches!(action, ImportAction::CreateFolder));
    assert!(!import.accepts(&picked(None)));
    let action = resume(&mut import, &mut app, ImportReply::FolderCreated);
    assert!(matches!(action, ImportAction::PickScript));
    let action = resume(&mut import, &mut app, picked(Some("mine.js")));
    assert!(matches!(
        action,
        ImportAction::CheckTarget { file_name } if file_name == "mine.js"
    ));
    let action = resume(&mut import, &mut app, ImportReply::Target { exists: false });
    assert!(matches!(
        action,
        ImportAction::WriteScript { file_name, source }
            if file_name == "mine.js" && source == "my source"
    ));
    let written = ImportReply::Written {
        target: 40,
        shown_name: Some("mine.js".to_string()),
    };
    let action = resume(&mut import, &mut app, written);
    assert!(matches!(action, ImportAction::ListScripts));
    let listed = ImportReply::Listed(Ok(entries(&[(40, "mine.js")])));
    let action = resume(&mut import, &mut app, listed);
    assert!(matches!(action, ImportAction::LoadScript { index: 3 }));
    let action = resume(&mut import, &mut app, ImportReply::Loaded(no_file()));
    assert!(matches!(action, ImportAction::LoadScript { index: 2 }));
    let loaded = ImportReply::Loaded(Ok("my source".to_string()));
    let action = resume(&mut import, &mut app, loaded);
    assert!(matches!(action, ImportAction::Finish));
    assert_eq!(
        app.current_script(),
        Some(("mine.js".to_string(), "my source".to_string()))
    );
    assert!(app.selected_script_is_editable());
    assert_eq!(app.logs, ["Imported script mine.js"]);
}

#[test]
fn refused_imports_only_log() {
    let start = |app: &mut DebuggerApp| {
        let (mut import, _) = ScriptImport::begin();
        resume(&mut import, app, ImportReply::FolderCreated);
        import
    };
    let mut app = window(&[]);
    app.logs.clear();

    let (mut import, _) = ScriptImport::begin();
    let reply = ImportReply::FolderFailed(trouble("/s"));
    assert!(matches!(
        resume(&mut import, &mut app, reply),
        ImportAction::Finish
    ));

    let mut import = start(&mut app);
    let reply = ImportReply::Picked(PickedScript::Nothing);
    assert!(matches!(
        resume(&mut import, &mut app, reply),
        ImportAction::Finish
    ));

    let mut import = start(&mut app);
    let reply = ImportReply::Picked(PickedScript::Unreadable(trouble("/x.js")));
    resume(&mut import, &mut app, reply);

    let mut import = start(&mut app);
    resume(&mut import, &mut app, picked(None));

    let mut import = start(&mut app);
    resume(&mut import, &mut app, picked(Some("UNIVERSAL.js")));

    let mut import = start(&mut app);
    resume(&mut import, &mut app, picked(Some("mine.js")));
    resume(&mut import, &mut app, ImportReply::Target { exists: true });

    let mut import = start(&mut app);
    resume(&mut import, &mut app, picked(Some("mine.js")));
    resume(&mut import, &mut app, ImportReply::Target { exists: false });
    let reply = ImportReply::WriteFailed(trouble("/s/mine.js"));
    assert!(matches!(
        resume(&mut import, &mut app, reply),
        ImportAction::Finish
    ));
    assert!(!import.accepts(&ImportReply::FolderCreated));
    assert_eq!(
        app.logs,
        [
            "Failed to create scripts directory /s: denied",
            "Failed to read imported script /x.js: denied",
            "Imported script must have a valid file name",
            "Cannot import UNIVERSAL.js because that name is reserved for a built-in script",
            "Cannot import mine.js because a script with that name already exists",
            "Failed to import script to /s/mine.js: denied"
        ]
    );
    assert_eq!(app.script_label(), "universal.js");
}

#[test]
fn an_imported_script_that_is_not_listed_is_not_selected() {
    let mut app = window(&[]);
    app.logs.clear();
    let (mut import, _) = ScriptImport::begin();
    resume(&mut import, &mut app, ImportReply::FolderCreated);
    let reserved = import.resume_with(&mut app, picked(Some("mine.js")), false);
    assert!(matches!(reserved, ImportAction::CheckTarget { .. }));
    resume(&mut import, &mut app, ImportReply::Target { exists: false });
    let written = ImportReply::Written {
        target: 40,
        shown_name: None,
    };
    resume(&mut import, &mut app, written);
    let listed = ImportReply::Listed(Err("no folder".to_string()));
    let action = resume(&mut import, &mut app, listed);
    assert!(matches!(action, ImportAction::Finish));
    assert_eq!(app.selected_script, None);
    assert_eq!(
        app.logs,
        [
            "Imported script custom.js",
            "Failed to load scripts: no folder"
        ]
    );
}

#[test]
fn a_target_without_a_known_script_changes_nothing() {
    let mut app = window(&[]);
    app.logs.clear();
    app.auto_select_script_for_target("Safari", no_file());
    assert_eq!(app.script_label(), "universal.js");
    assert!(app.logs.is_empty());
    app.auto_select_script_for_target("MaciOS", no_file());
    assert_eq!(app.script_label(), "maciOS.js");
    assert_eq!(app.logs, ["Auto-selected script maciOS.js for MaciOS"]);
}

#[test]
fn lists_can_be_taken_with_a_given_recommendation() {
    let mut app = busy_window(&[]);
    app.select_app_with(1, Some("geode.js"), no_file());
    assert_eq!(app.selected_app, Some(1));
    assert_eq!(app.script_label(), "Geode.js");
    app.select_process_with(1, None, no_file());
    assert_eq!(app.entered_pid(), Some(345));
    assert_eq!(app.script_label(), "Geode.js");
}
