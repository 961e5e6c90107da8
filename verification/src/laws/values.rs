//! Laws on what values say: nothing of them is lost, added or exchanged.
use vstd::prelude::*;

use crate::catalog::{ScriptEntry, ScriptLocation, ScriptLocationView};
use crate::debugger::DebuggerApp;
use crate::device::{
    AppInfo, CheckStatus, CheckStatusView, DeviceInfo, DeviceStatus, ProcessInfo, WorkerCommand,
    WorkerCommandView, WorkerEvent, WorkerEventView,
};
use crate::host::Folder;
use crate::imports::{
    Deletion, ImportAction, ImportActionView, ImportReply, ImportReplyView, PathTrouble,
    PickedScript, PickedScriptView,
};
use crate::text::{option_view, outcome_view, outcome_views, views};
use crate::worker::{
    DeviceWorker, Phase, PhaseView, Script, ScriptView, WorkerAction, WorkerActionView,
    WorkerEffect, WorkerEffectView, WorkerReply, WorkerReplyView,
};

verus! {

/// A list says what its items say, each in its place; an outcome says what its value or its error
/// says.
pub proof fn law_lists_and_outcomes_say_what_they_hold<T: View>(
    items: Vec<T>,
    i: int,
    item: T,
    error: String,
)
    requires
        0 <= i < items@.len(),
    ensures
        views(items@).len() == items@.len(),
        views(items@)[i] == items@[i]@,
        option_view(Some(item)) == Some(item@),
        option_view(None::<T>) is None,
        outcome_view(Ok::<T, String>(item)) == Ok::<T::V, Seq<char>>(item@),
        outcome_view(Err::<T, String>(error)) == Err::<T::V, Seq<char>>(error@),
        outcome_views(Ok::<Vec<T>, String>(items)) matches Ok(said) && said.len() == items@.len()
            && said[i] == items@[i]@,
        outcome_views(Err::<Vec<T>, String>(error)) == Err::<Seq<T::V>, Seq<char>>(error@),
{
}

/// What is known of a device, an app, a process, a script or a folder is said under its own name.
pub proof fn law_records_say_their_fields(
    device: DeviceInfo,
    app: AppInfo,
    process: ProcessInfo,
    status: DeviceStatus,
    error: String,
    entry: ScriptEntry,
    id: u64,
    script: Script,
    folder: Folder,
    trouble: PathTrouble,
    deletion: Deletion,
)
    ensures
        device@.udid == device.udid@ && device@.name == device.name@ && device@.product_version
            == device.product_version@ && device@.connection == device.connection@,
        app@.bundle_id == app.bundle_id@ && app@.name == app.name@,
        process@.pid == process.pid && process@.name == process.name@,
        status@.wireless_debugging == status.wireless_debugging@ && status@.developer_mode
            == status.developer_mode@ && status@.developer_disk_image
            == status.developer_disk_image@,
        CheckStatus::Success@ is Success,
        CheckStatus::Failed(error)@ == CheckStatusView::Failed(error@),
        entry@.name == entry.name@ && entry@.location == entry.location@ && entry@.editable
            == entry.editable,
        ScriptLocation::Bundled(error)@ == ScriptLocationView::Bundled(error@),
        ScriptLocation::File(id)@ == ScriptLocationView::File(id),
        script@.name == script.name@ && script@.source == script.source@,
        folder@.base == folder.base && folder@.parts == views(folder.parts@),
        trouble@.path == trouble.path@ && trouble@.error == trouble.error@,
        deletion@.name == deletion.name@ && deletion@.file == deletion.file,
{
}

/// A command says what is asked, of which device, for which app or process, with which script.
pub proof fn law_commands_say_what_is_asked(
    udid: String,
    bundle_id: String,
    pid: u32,
    name: String,
    source: String,
)
    ensures
        WorkerCommand::RefreshDevices@ is RefreshDevices,
        (WorkerCommand::ListApps { udid })@ == (WorkerCommandView::ListApps { udid: udid@ }),
        (WorkerCommand::ListProcesses { udid })@ == (WorkerCommandView::ListProcesses {
            udid: udid@,
        }),
        (WorkerCommand::LaunchAndAttach { udid, bundle_id })@ == (
        WorkerCommandView::LaunchAndAttach { udid: udid@, bundle_id: bundle_id@ }),
        (WorkerCommand::LaunchAndAttachAndRunScript { udid, bundle_id, name, source })@ == (
        WorkerCommandView::LaunchAndAttachAndRunScript {
            udid: udid@,
            bundle_id: bundle_id@,
            name: name@,
            source: source@,
        }),
        (WorkerCommand::Attach { udid, pid })@ == (WorkerCommandView::Attach { udid: udid@, pid }),
        (WorkerCommand::AttachAndRun { udid, pid, name, source })@ == (
        WorkerCommandView::AttachAndRun { udid: udid@, pid, name: name@, source: source@ }),
        WorkerCommand::Stop@ is Stop,
{
}

/// An event says what happened and how it went.
pub proof fn law_events_say_what_happened(
    flag: bool,
    devices: Result<Vec<DeviceInfo>, String>,
    status: DeviceStatus,
    apps: Result<Vec<AppInfo>, String>,
    processes: Result<Vec<ProcessInfo>, String>,
    launched: Result<u32, String>,
    text: Result<String, String>,
    finished: Result<(), String>,
    line: String,
)
    ensures
        WorkerEvent::Busy(flag)@ == WorkerEventView::Busy(flag),
        WorkerEvent::Devices(devices)@ == WorkerEventView::Devices(outcome_views(devices)),
        WorkerEvent::DeviceStatus(status)@ == WorkerEventView::DeviceStatus(status@),
        WorkerEvent::Apps(apps)@ == WorkerEventView::Apps(outcome_views(apps)),
        WorkerEvent::Processes(processes)@ == WorkerEventView::Processes(outcome_views(processes)),
        WorkerEvent::Launched(launched)@ == WorkerEventView::Launched(outcome_view(launched)),
        WorkerEvent::Attached(text)@ == WorkerEventView::Attached(outcome_view(text)),
        WorkerEvent::DebugResponse(text)@ == WorkerEventView::DebugResponse(outcome_view(text)),
        WorkerEvent::ScriptFinished(finished)@ == WorkerEventView::ScriptFinished(
            outcome_view(finished),
        ),
        WorkerEvent::Log(line)@ == WorkerEventView::Log(line@),
{
}

/// An action of the worker says what is to be done, on which device, with what; an effect says what
/// happens on the way; the worker itself says which process it debugs and what it waits for.
pub proof fn law_actions_say_what_is_to_be_done(
    udid: String,
    bundle_id: String,
    start_suspended: bool,
    pid: u32,
    command: String,
    event: WorkerEvent,
    script: Script,
    worker: DeviceWorker,
)
    ensures
        WorkerAction::RefreshDevices@ is RefreshDevices,
        (WorkerAction::InspectDevice { udid })@ == (WorkerActionView::InspectDevice {
            udid: udid@,
        }),
        (WorkerAction::ListApps { udid })@ == (WorkerActionView::ListApps { udid: udid@ }),
        (WorkerAction::ListProcesses { udid })@ == (WorkerActionView::ListProcesses {
            udid: udid@,
        }),
        (WorkerAction::LaunchApp { udid, bundle_id, start_suspended })@ == (
        WorkerActionView::LaunchApp { udid: udid@, bundle_id: bundle_id@, start_suspended }),
        (WorkerAction::AttachDebugger { udid, pid })@ == (WorkerActionView::AttachDebugger {
            udid: udid@,
            pid,
        }),
        (WorkerAction::SendToNewSession { command })@ == (WorkerActionView::SendToNewSession {
            command: command@,
        }),
        (WorkerAction::SendToReleasedSession { command })@ == (
        WorkerActionView::SendToReleasedSession { command: command@ }),
        WorkerAction::Finish@ is Finish,
        WorkerEffect::Emit(event)@ == WorkerEffectView::Emit(event@),
        WorkerEffect::KeepSession@ is KeepSession,
        (WorkerEffect::StartScript { pid, script })@ == (WorkerEffectView::StartScript {
            pid,
            script: ScriptView { name: script.name@, source: script.source@ },
        }),
        WorkerEffect::ReleaseSession@ is ReleaseSession,
        worker@.active_debug == worker.active_debug,
        worker@.phase == worker.phase@,
        Phase::Idle@ == PhaseView::Idle,
{
}

/// A reply to the worker says how the work went.
pub proof fn law_replies_say_how_it_went(
    devices: Result<Vec<DeviceInfo>, String>,
    status: DeviceStatus,
    apps: Result<Vec<AppInfo>, String>,
    processes: Result<Vec<ProcessInfo>, String>,
    launched: Result<u32, String>,
    connected: Result<(), String>,
    response: Result<String, String>,
)
    ensures
        WorkerReply::Devices(devices)@ == WorkerReplyView::Devices(outcome_views(devices)),
        WorkerReply::Status(status)@ == WorkerReplyView::Status(status@),
        WorkerReply::Apps(apps)@ == WorkerReplyView::Apps(outcome_views(apps)),
        WorkerReply::Processes(processes)@ == WorkerReplyView::Processes(outcome_views(processes)),
        WorkerReply::Launched(launched)@ == WorkerReplyView::Launched(outcome_view(launched)),
        WorkerReply::Connected(connected)@ == WorkerReplyView::Connected(outcome_view(connected)),
        WorkerReply::Response(response)@ == WorkerReplyView::Response(outcome_view(response)),
{
}

/// What an import asks for and what it is told is said as it is.
pub proof fn law_imports_say_what_is_asked_and_told(
    file_name: String,
    source: String,
    index: usize,
    trouble: PathTrouble,
    picked: PickedScript,
    exists: bool,
    target: u64,
    shown_name: Option<String>,
    entries: Result<Vec<ScriptEntry>, String>,
    file: Result<String, String>,
)
    ensures
        ImportAction::CreateFolder@ is CreateFolder,
        ImportAction::PickScript@ is PickScript,
        (ImportAction::CheckTarget { file_name })@ == (ImportActionView::CheckTarget {
            file_name: file_name@,
        }),
        (ImportAction::WriteScript { file_name, source })@ == (ImportActionView::WriteScript {
            file_name: file_name@,
            source: source@,
        }),
        ImportAction::ListScripts@ is ListScripts,
        (ImportAction::LoadScript { index })@ == (ImportActionView::LoadScript { index }),
        ImportAction::Finish@ is Finish,
        ImportReply::FolderCreated@ is FolderCreated,
        ImportReply::FolderFailed(trouble)@ == ImportReplyView::FolderFailed(trouble@),
        ImportReply::Picked(picked)@ == ImportReplyView::Picked(picked@),
        (ImportReply::Target { exists })@ == (ImportReplyView::Target { exists }),
        (ImportReply::Written { target, shown_name })@ == (ImportReplyView::Written {
            target,
            shown_name: option_view(shown_name),
        }),
        ImportReply::WriteFailed(trouble)@ == ImportReplyView::WriteFailed(trouble@),
        ImportReply::Listed(entries)@ == ImportReplyView::Listed(outcome_views(entries)),
        ImportReply::Loaded(file)@ == ImportReplyView::Loaded(outcome_view(file)),
        PickedScript::Nothing@ is Nothing,
        PickedScript::Unreadable(trouble)@ == PickedScriptView::Unreadable(trouble@),
        (PickedScript::Read { source, file_name: shown_name })@ == (PickedScriptView::Read {
            source: source@,
            file_name: option_view(shown_name),
        }),
{
}

/// The window says all that it remembers, each thing under its own name.
pub proof fn law_window_says_what_it_remembers(app: DebuggerApp)
    ensures
        app@.devices == views(app.devices@) && app@.apps == views(app.apps@) && app@.processes
            == views(app.processes@),
        app@.selected_device == app.selected_device && app@.selected_app == app.selected_app
            && app@.selected_process == app.selected_process && app@.selected_script
            == app.selected_script,
        app@.app_filter == app.app_filter@ && app@.process_filter == app.process_filter@
            && app@.manual_pid == app.manual_pid@,
        app@.script_entries == views(app.script_entries@) && app@.script_name == app.script_name@
            && app@.script_source == app.script_source@,
        app.device_status is None <==> app@.device_status is None,
        app.device_status matches Some(status) ==> app@.device_status == Some(
            outcome_view(status),
        ),
        app@.logs == views(app.logs@) && app@.outbox == views(app.outbox@),
        app@.busy == app.busy && app@.attached == app.attached && app@.script_running
            == app.script_running,
        app@.last_pid_refresh == app.last_pid_refresh && app@.has_successful_process_list
            == app.has_successful_process_list && app@.has_logged_process_list
            == app.has_logged_process_list,
{
}

} // verus!
