//! All that can happen to the window, and what stays true of it throughout.
use vstd::prelude::*;

use crate::catalog::ScriptEntryView;
use crate::debugger::{has_name, has_udid, is_file, AppView};
use crate::device::{WorkerCommandView, WorkerEventView};
use crate::host::HostSystem;
use crate::imports::{
    import_step, select_imported, ImportPhaseView, ImportReplyView, PathTroubleView,
};
use crate::lists::lemma_first_at;
use crate::text::decimal;

verus! {

/// Something that happens to the window.
pub ghost enum WindowStep {
    /// The worker tells of something.
    Event { event: WorkerEventView, now: u64, system: HostSystem },
    SelectDevice { index: usize, now: u64 },
    SelectApp {
        index: usize,
        recommended: Option<Seq<char>>,
        file: Result<Seq<char>, Seq<char>>,
    },
    SelectProcess {
        index: usize,
        recommended: Option<Seq<char>>,
        file: Result<Seq<char>, Seq<char>>,
    },
    EditAppFilter { text: Seq<char> },
    EditProcessFilter { text: Seq<char> },
    EditManualPid { text: Seq<char> },
    RefreshDevices,
    RefreshLists,
    /// Time passes.
    Tick { now: u64 },
    Launch,
    LaunchAndRun,
    Attach,
    AttachAndRun,
    Stop,
    /// The commands in the outbox are handed to the worker.
    Sent,
    WorkerUnavailable,
    ListScripts { entries: Result<Seq<ScriptEntryView>, Seq<char>> },
    LoadScript { index: usize, file: Result<Seq<char>, Seq<char>> },
    SelectScript { name: Seq<char>, file: Result<Seq<char>, Seq<char>> },
    Import { phase: ImportPhaseView, reply: ImportReplyView, reserved: bool },
    DeleteScript,
    ScriptDeleted { name: Seq<char>, outcome: Result<(), PathTroubleView> },
    CopyLogs,
    ClearLogs,
}

impl AppView {
    /// What the window remembers after a step.
    pub open spec fn after(self, step: WindowStep) -> Self {
        match step {
            WindowStep::Event { event, now, system } => self.handle_event(event, now, system),
            WindowStep::SelectDevice { index, now } => self.select_device(index, now),
            WindowStep::SelectApp { index, recommended, file } => self.select_app(
                index,
                recommended,
                file,
            ),
            WindowStep::SelectProcess { index, recommended, file } => self.select_process(
                index,
                recommended,
                file,
            ),
            WindowStep::EditAppFilter { text } => AppView { app_filter: text, ..self },
            WindowStep::EditProcessFilter { text } => AppView { process_filter: text, ..self },
            WindowStep::EditManualPid { text } => self.edit_manual_pid(text),
            WindowStep::RefreshDevices => self.refresh_devices(),
            WindowStep::RefreshLists => self.refresh_selected_device_lists(),
            WindowStep::Tick { now } => self.maybe_refresh_processes(now),
            WindowStep::Launch => self.launch(),
            WindowStep::LaunchAndRun => self.launch_and_run(),
            WindowStep::Attach => self.attach(),
            WindowStep::AttachAndRun => self.attach_and_run(),
            WindowStep::Stop => self.stop(),
            WindowStep::Sent => AppView { outbox: Seq::empty(), ..self },
            WindowStep::WorkerUnavailable => self.worker_unavailable(),
            WindowStep::ListScripts { entries } => self.refresh_scripts(entries),
            WindowStep::LoadScript { index, file } => self.load_script(index, file),
            WindowStep::SelectScript { name, file } => self.select_script_by_name(name, file),
            WindowStep::Import { phase, reply, reserved } => import_step(
                self,
                phase,
                reply,
                reserved,
            ).app,
            WindowStep::DeleteScript => self.delete_selected_script(),
            WindowStep::ScriptDeleted { name, outcome } => self.script_deleted(name, outcome),
            WindowStep::CopyLogs => self.copy_logs(),
            WindowStep::ClearLogs => self.clear_logs(),
        }
    }

    /// The step can happen: only a listed device can be selected, and a list fits in memory.
    pub open spec fn can_happen(self, step: WindowStep) -> bool {
        match step {
            WindowStep::Event { event: WorkerEventView::Devices(Ok(devices)), .. } => {
                devices.len() <= usize::MAX
            },
            WindowStep::SelectDevice { index, .. } => index < self.devices.len(),
            WindowStep::ListScripts { entries: Ok(entries) } => entries.len() <= usize::MAX,
            WindowStep::Import { reply: ImportReplyView::Listed(Ok(entries)), .. } => {
                entries.len() <= usize::MAX
            },
            _ => true,
        }
    }

    /// What is always true of the window.
    pub open spec fn sound(self) -> bool {
        // A device is selected exactly when there is one, and it is one of those listed.
        &&& self.devices.len() <= usize::MAX
        &&& self.selected_device is Some <==> self.devices.len() > 0
        &&& self.selected_device matches Some(index) ==> index < self.devices.len()
        // A selected script is one of those listed.
        &&& self.script_entries.len() <= usize::MAX
        &&& self.selected_script matches Some(index) ==> index < self.script_entries.len()
        // The first list of processes was logged.
        &&& self.has_successful_process_list ==> self.has_logged_process_list
        // A known status is one that the worker told.
        &&& self.device_status matches Some(status) ==> status is Ok
    }
}

/// Events keep the window sound.
proof fn lemma_events_keep_the_window_sound(
    app: AppView,
    event: WorkerEventView,
    now: u64,
    system: HostSystem,
)
    requires
        app.sound(),
        event matches WorkerEventView::Devices(Ok(devices)) ==> devices.len() <= usize::MAX,
    ensures
        app.handle_event(event, now, system).sound(),
{
    if let WorkerEventView::Devices(Ok(devices)) = event {
        if let Some(udid) = app.selected_udid() {
            lemma_first_at(devices, has_udid(udid));
        }
    }
}

/// Listing scripts keeps the window sound.
proof fn lemma_listing_keeps_the_window_sound(
    app: AppView,
    entries: Result<Seq<ScriptEntryView>, Seq<char>>,
)
    requires
        app.sound(),
        entries matches Ok(list) ==> list.len() <= usize::MAX,
    ensures
        app.refresh_scripts(entries).sound(),
{
    if let Ok(list) = entries {
        if let Some(entry) = app.selected_script_entry() {
            lemma_first_at(list, has_name(entry.name));
        }
    }
}

/// Loading a script keeps the window sound.
proof fn lemma_loading_keeps_the_window_sound(
    app: AppView,
    index: usize,
    file: Result<Seq<char>, Seq<char>>,
)
    requires
        app.sound(),
    ensures
        app.load_script(index, file).sound(),
{
}

/// Choosing a target keeps the window sound.
proof fn lemma_choosing_keeps_the_window_sound(
    app: AppView,
    target: Seq<char>,
    recommended: Option<Seq<char>>,
    file: Result<Seq<char>, Seq<char>>,
)
    requires
        app.sound(),
    ensures
        app.choose_target(target, recommended, file).sound(),
{
    if let Some(name) = recommended {
        if let Some(index) = app.script_named(name) {
            lemma_loading_keeps_the_window_sound(app, index, file);
        }
    }
}

/// Selecting the imported script keeps the window sound.
proof fn lemma_imported_keeps_the_window_sound(app: AppView, target: u64)
    requires
        app.sound(),
    ensures
        select_imported(app, target).app.sound(),
{
    lemma_first_at(app.script_entries, is_file(target));
}

/// A step of an import keeps the window sound.
proof fn lemma_imports_keep_the_window_sound(
    app: AppView,
    phase: ImportPhaseView,
    reply: ImportReplyView,
    reserved: bool,
)
    requires
        app.sound(),
        reply matches ImportReplyView::Listed(Ok(list)) ==> list.len() <= usize::MAX,
    ensures
        import_step(app, phase, reply, reserved).app.sound(),
{
    match (phase, reply) {
        (ImportPhaseView::Listing { target }, ImportReplyView::Listed(entries)) => {
            lemma_listing_keeps_the_window_sound(app, entries);
            lemma_imported_keeps_the_window_sound(app.refresh_scripts(entries), target);
        },
        (ImportPhaseView::LoadingSelected { index, target }, ImportReplyView::Loaded(file)) => {
            lemma_loading_keeps_the_window_sound(app, index, file);
            lemma_imported_keeps_the_window_sound(app.load_script(index, file), target);
        },
        (ImportPhaseView::LoadingImported { index }, ImportReplyView::Loaded(file)) => {
            lemma_loading_keeps_the_window_sound(app, index, file);
        },
        _ => {},
    }
}

/// At the start, and after every step, a device is selected exactly when one is listed, the
/// selected device and script are among those listed, and the status that is shown is one that the
/// worker told.
pub proof fn law_window_stays_sound(app: AppView, step: WindowStep, now: u64)
    ensures
        AppView::initial(now).sound(),
        app.sound() && app.can_happen(step) ==> app.after(step).sound(),
{
    if app.sound() && app.can_happen(step) {
        match step {
            WindowStep::Event { event, now, system } => {
                lemma_events_keep_the_window_sound(app, event, now, system);
            },
            WindowStep::SelectApp { index, recommended, file } => {
                lemma_choosing_keeps_the_window_sound(
                    AppView { selected_app: Some(index), ..app },
                    app.filtered_apps()[index as int].name,
                    recommended,
                    file,
                );
            },
            WindowStep::SelectProcess { index, recommended, file } => {
                let process = app.filtered_processes()[index as int];
                lemma_choosing_keeps_the_window_sound(
                    AppView {
                        selected_process: Some(process.pid),
                        manual_pid: decimal(process.pid as nat),
                        ..app
                    },
                    process.name,
                    recommended,
                    file,
                );
            },
            WindowStep::ListScripts { entries } => {
                lemma_listing_keeps_the_window_sound(app, entries);
            },
            WindowStep::LoadScript { index, file } => {
                lemma_loading_keeps_the_window_sound(app, index, file);
            },
            WindowStep::SelectScript { name, file } => {
                if let Some(index) = app.script_named(name) {
                    lemma_loading_keeps_the_window_sound(app, index, file);
                }
            },
            WindowStep::Import { phase, reply, reserved } => {
                lemma_imports_keep_the_window_sound(app, phase, reply, reserved);
            },
            _ => {},
        }
    }
}

/// A script comes to be shown as running only by a button that runs one, and only where that button
/// can be used.
pub proof fn law_only_run_buttons_start_a_script(app: AppView, step: WindowStep)
    requires
        !app.script_running,
        app.after(step).script_running,
    ensures
        (step is LaunchAndRun && app.can_launch_and_run()) || (step is AttachAndRun
            && app.can_attach_and_run()),
{
}

/// A process comes to be shown as attached only when the worker tells so.
pub proof fn law_only_the_worker_attaches(app: AppView, step: WindowStep)
    requires
        !app.attached,
        app.after(step).attached,
    ensures
        step matches WindowStep::Event { event: WorkerEventView::Attached(Ok(_)), .. },
{
}

/// Events only add to the log.
proof fn lemma_events_add_to_the_log(
    app: AppView,
    event: WorkerEventView,
    now: u64,
    system: HostSystem,
)
    ensures
        app.logs.is_prefix_of(app.handle_event(event, now, system).logs),
{
}

/// Choosing a target only adds to the log.
proof fn lemma_choosing_adds_to_the_log(
    app: AppView,
    target: Seq<char>,
    recommended: Option<Seq<char>>,
    file: Result<Seq<char>, Seq<char>>,
)
    ensures
        app.logs.is_prefix_of(app.choose_target(target, recommended, file).logs),
{
    let selected = app.auto_select_script(target, recommended, file);
    assert(app.logs.is_prefix_of(selected.logs));
    assert(selected.logs.is_prefix_of(selected.note_livecontainer(target).logs));
}

/// A step of an import only adds to the log.
proof fn lemma_imports_add_to_the_log(
    app: AppView,
    phase: ImportPhaseView,
    reply: ImportReplyView,
    reserved: bool,
)
    ensures
        app.logs.is_prefix_of(import_step(app, phase, reply, reserved).app.logs),
{
    match (phase, reply) {
        (ImportPhaseView::Listing { target }, ImportReplyView::Listed(entries)) => {
            let listed = app.refresh_scripts(entries);
            assert(app.logs.is_prefix_of(listed.logs));
            assert(select_imported(listed, target).app.logs == listed.logs);
        },
        (ImportPhaseView::LoadingSelected { index, target }, ImportReplyView::Loaded(file)) => {
            let loaded = app.load_script(index, file);
            assert(app.logs.is_prefix_of(loaded.logs));
            assert(select_imported(loaded, target).app.logs == loaded.logs);
        },
        _ => {},
    }
}

/// The log only grows, until it is cleared.
pub proof fn law_log_only_grows(app: AppView, step: WindowStep)
    requires
        !(step is ClearLogs),
    ensures
        app.logs.is_prefix_of(app.after(step).logs),
{
    match step {
        WindowStep::Event { event, now, system } => {
            lemma_events_add_to_the_log(app, event, now, system);
        },
        WindowStep::SelectApp { index, recommended, file } => {
            lemma_choosing_adds_to_the_log(
                AppView { selected_app: Some(index), ..app },
                app.filtered_apps()[index as int].name,
                recommended,
                file,
            );
        },
        WindowStep::SelectProcess { index, recommended, file } => {
            let process = app.filtered_processes()[index as int];
            lemma_choosing_adds_to_the_log(
                AppView {
                    selected_process: Some(process.pid),
                    manual_pid: decimal(process.pid as nat),
                    ..app
                },
                process.name,
                recommended,
                file,
            );
        },
        WindowStep::Import { phase, reply, reserved } => {
            lemma_imports_add_to_the_log(app, phase, reply, reserved);
        },
        _ => {},
    }
}

/// The device that a command is for.
pub open spec fn addressee(command: WorkerCommandView) -> Option<Seq<char>> {
    match command {
        WorkerCommandView::RefreshDevices => None,
        WorkerCommandView::ListApps { udid } => Some(udid),
        WorkerCommandView::ListProcesses { udid } => Some(udid),
        WorkerCommandView::LaunchAndAttach { udid, .. } => Some(udid),
        WorkerCommandView::LaunchAndAttachAndRunScript { udid, .. } => Some(udid),
        WorkerCommandView::Attach { udid, .. } => Some(udid),
        WorkerCommandView::AttachAndRun { udid, .. } => Some(udid),
        WorkerCommandView::Stop => None,
    }
}

/// Between two moments at most one thing was asked of the worker, and of the selected device where
/// it is for a device.
pub open spec fn asks_of_selected_device(before: AppView, after: AppView) -> bool {
    ||| after.outbox == before.outbox
    ||| exists|command: WorkerCommandView|
        after.outbox == #[trigger] before.outbox.push(command) && (addressee(command) is None
            || addressee(command) == after.selected_udid())
}

/// Events ask only of the selected device.
proof fn lemma_events_ask_of_selected_device(
    app: AppView,
    event: WorkerEventView,
    now: u64,
    system: HostSystem,
)
    ensures
        asks_of_selected_device(app, app.handle_event(event, now, system)),
{
    if let WorkerEventView::Devices(Ok(devices)) = event {
        let after = app.devices_listed(devices, now);
        if after.outbox != app.outbox {
            let command = WorkerCommandView::ListApps { udid: devices[0].udid };
            assert(after.outbox == app.outbox.push(command));
        }
    }
}

/// Choosing a target asks nothing.
proof fn lemma_choosing_asks_nothing(
    app: AppView,
    target: Seq<char>,
    recommended: Option<Seq<char>>,
    file: Result<Seq<char>, Seq<char>>,
)
    ensures
        app.choose_target(target, recommended, file).outbox == app.outbox,
{
}

/// Importing asks nothing.
proof fn lemma_imports_ask_nothing(
    app: AppView,
    phase: ImportPhaseView,
    reply: ImportReplyView,
    reserved: bool,
)
    ensures
        import_step(app, phase, reply, reserved).app.outbox == app.outbox,
{
}

/// A button asks only of the selected device.
proof fn lemma_buttons_ask_of_selected_device(app: AppView, now: u64)
    ensures
        asks_of_selected_device(app, app.launch()),
        asks_of_selected_device(app, app.launch_and_run()),
        asks_of_selected_device(app, app.attach()),
        asks_of_selected_device(app, app.attach_and_run()),
        asks_of_selected_device(app, app.refresh_selected_device_lists()),
        asks_of_selected_device(app, app.maybe_refresh_processes(now)),
{
}

/// A step asks at most one thing of the worker, and of the selected device where it is for a
/// device.
pub proof fn law_commands_are_for_the_selected_device(app: AppView, step: WindowStep)
    requires
        !(step is Sent),
    ensures
        asks_of_selected_device(app, app.after(step)),
{
    match step {
        WindowStep::Event { event, now, system } => {
            lemma_events_ask_of_selected_device(app, event, now, system);
        },
        WindowStep::SelectApp { index, recommended, file } => {
            lemma_choosing_asks_nothing(
                AppView { selected_app: Some(index), ..app },
                app.filtered_apps()[index as int].name,
                recommended,
                file,
            );
        },
        WindowStep::SelectProcess { index, recommended, file } => {
            let process = app.filtered_processes()[index as int];
            lemma_choosing_asks_nothing(
                AppView {
                    selected_process: Some(process.pid),
                    manual_pid: decimal(process.pid as nat),
                    ..app
                },
                process.name,
                recommended,
                file,
            );
        },
        WindowStep::Import { phase, reply, reserved } => {
            lemma_imports_ask_nothing(app, phase, reply, reserved);
        },
        WindowStep::Tick { now } => {
            lemma_buttons_ask_of_selected_device(app, now);
        },
        WindowStep::Launch => {
            lemma_buttons_ask_of_selected_device(app, 0);
        },
        WindowStep::LaunchAndRun => {
            lemma_buttons_ask_of_selected_device(app, 0);
        },
        WindowStep::Attach => {
            lemma_buttons_ask_of_selected_device(app, 0);
        },
        WindowStep::AttachAndRun => {
            lemma_buttons_ask_of_selected_device(app, 0);
        },
        WindowStep::RefreshLists => {
            lemma_buttons_ask_of_selected_device(app, 0);
        },
        _ => {},
    }
}

} // verus!
