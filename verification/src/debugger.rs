//! The window's memory: what is listed, what is selected, and what is asked of the worker.
use vstd::prelude::*;
use vstd::utf8::is_ascii_chars;

use crate::catalog::{ScriptEntry, ScriptEntryView, ScriptLocationView};
use crate::device::{
    AppInfo, AppInfoView, DeviceInfo, DeviceInfoView, DeviceStatus, DeviceStatusView, ProcessInfo,
    ProcessInfoView, WorkerCommand, WorkerCommandView,
};
use crate::lists::{first_at, kept, lemma_kept, lemma_take_one_more, position};
use crate::text::{
    ascii_lowercase, concat4, contains, decimal, equal_ignoring_case, is_blank,
    lemma_blank_trims_to_nothing, lemma_case_does_not_matter, lemma_views_empty, lemma_views_push,
    lowercase, lowercase_of, number_in, occurs, option_view, outcome_view, read_number, trim,
    trimmed, views, write_decimal,
};

verus! {

broadcast use {lemma_views_empty, lemma_views_push};

/// How long a list of processes stays fresh, in nanoseconds.
pub const PROCESS_REFRESH_INTERVAL: u64 = 3_000_000_000;

/// The window's memory.
///
/// Moments are nanoseconds on a clock that never goes back. Commands for the worker wait in
/// `outbox` until they are sent.
pub struct DebuggerApp {
    pub devices: Vec<DeviceInfo>,
    pub apps: Vec<AppInfo>,
    pub processes: Vec<ProcessInfo>,
    pub selected_device: Option<usize>,
    /// A position in the filtered list of apps.
    pub selected_app: Option<usize>,
    pub selected_process: Option<u32>,
    pub app_filter: String,
    pub process_filter: String,
    pub manual_pid: String,
    pub script_entries: Vec<ScriptEntry>,
    pub selected_script: Option<usize>,
    pub script_name: String,
    pub script_source: String,
    pub device_status: Option<Result<DeviceStatus, String>>,
    pub logs: Vec<String>,
    pub busy: bool,
    pub attached: bool,
    pub script_running: bool,
    pub last_pid_refresh: u64,
    pub has_successful_process_list: bool,
    pub has_logged_process_list: bool,
    pub outbox: Vec<WorkerCommand>,
}

/// What a `DebuggerApp` remembers.
#[verifier::ext_equal]
pub ghost struct AppView {
    pub devices: Seq<DeviceInfoView>,
    pub apps: Seq<AppInfoView>,
    pub processes: Seq<ProcessInfoView>,
    pub selected_device: Option<usize>,
    pub selected_app: Option<usize>,
    pub selected_process: Option<u32>,
    pub app_filter: Seq<char>,
    pub process_filter: Seq<char>,
    pub manual_pid: Seq<char>,
    pub script_entries: Seq<ScriptEntryView>,
    pub selected_script: Option<usize>,
    pub script_name: Seq<char>,
    pub script_source: Seq<char>,
    pub device_status: Option<Result<DeviceStatusView, Seq<char>>>,
    pub logs: Seq<Seq<char>>,
    pub busy: bool,
    pub attached: bool,
    pub script_running: bool,
    pub last_pid_refresh: u64,
    pub has_successful_process_list: bool,
    pub has_logged_process_list: bool,
    pub outbox: Seq<WorkerCommandView>,
}

impl View for DebuggerApp {
    type V = AppView;

    open spec fn view(&self) -> AppView {
        AppView {
            devices: views(self.devices@),
            apps: views(self.apps@),
            processes: views(self.processes@),
            selected_device: self.selected_device,
            selected_app: self.selected_app,
            selected_process: self.selected_process,
            app_filter: self.app_filter@,
            process_filter: self.process_filter@,
            manual_pid: self.manual_pid@,
            script_entries: views(self.script_entries@),
            selected_script: self.selected_script,
            script_name: self.script_name@,
            script_source: self.script_source@,
            device_status: match self.device_status {
                Some(status) => Some(outcome_view(status)),
                None => None,
            },
            logs: views(self.logs@),
            busy: self.busy,
            attached: self.attached,
            script_running: self.script_running,
            last_pid_refresh: self.last_pid_refresh,
            has_successful_process_list: self.has_successful_process_list,
            has_logged_process_list: self.has_logged_process_list,
            outbox: views(self.outbox@),
        }
    }
}

// ---------------------------------------------------------------------------------------------
// Texts
// ---------------------------------------------------------------------------------------------

/// The line that shows a device.
pub open spec fn device_line(device: DeviceInfoView) -> Seq<char> {
    if device.product_version.len() == 0 {
        device.name + " ("@ + device.connection + ")"@
    } else {
        device.name + " OS "@ + device.product_version + " ("@ + device.connection + ")"@
    }
}

/// The line that shows a device.
pub fn device_label(device: &DeviceInfo) -> (label: String)
    ensures
        label@ == device_line(device@),
{
    if device.product_version.as_str().is_empty() {
        concat4(device.name.as_str(), " (", device.connection.as_str(), ")")
    } else {
        let mut label = concat4(
            device.name.as_str(),
            " OS ",
            device.product_version.as_str(),
            " (",
        );
        label.append(device.connection.as_str());
        label.append(")");
        label
    }
}

/// The line that shows a process.
pub open spec fn process_line(process: ProcessInfoView) -> Seq<char> {
    process.name + " ("@ + decimal(process.pid as nat) + ")"@
}

/// The line that shows a process.
pub fn process_label(process: &ProcessInfo) -> (label: String)
    ensures
        label@ == process_line(process@),
{
    let number = write_decimal(process.pid as u64);
    concat4(process.name.as_str(), " (", number.as_str(), ")")
}

// ---------------------------------------------------------------------------------------------
// Looking things up
// ---------------------------------------------------------------------------------------------

/// The app has `filter` in its name or bundle identifier, without regard to case.
pub open spec fn app_matches(filter: Seq<char>) -> spec_fn(AppInfoView) -> bool {
    |app: AppInfoView|
        occurs(lowercase_of(app.name), filter) || occurs(lowercase_of(app.bundle_id), filter)
}

/// The process has `filter` in its name, without regard to case, or in its number.
pub open spec fn process_matches(filter: Seq<char>) -> spec_fn(ProcessInfoView) -> bool {
    |process: ProcessInfoView|
        occurs(lowercase_of(process.name), filter) || occurs(decimal(process.pid as nat), filter)
}

/// The device has the given identifier.
pub open spec fn has_udid(udid: Seq<char>) -> spec_fn(DeviceInfoView) -> bool {
    |device: DeviceInfoView| device.udid == udid
}

/// The process has the given number.
pub open spec fn has_pid(pid: u32) -> spec_fn(ProcessInfoView) -> bool {
    |process: ProcessInfoView| process.pid == pid
}

/// The script has the given name.
pub open spec fn has_name(name: Seq<char>) -> spec_fn(ScriptEntryView) -> bool {
    |entry: ScriptEntryView| entry.name == name
}

/// The script has the given name but for the case of `A` to `Z`.
pub open spec fn has_similar_name(name: Seq<char>) -> spec_fn(ScriptEntryView) -> bool {
    |entry: ScriptEntryView| ascii_lowercase(entry.name) == ascii_lowercase(name)
}

/// The script is the file with the given number.
pub open spec fn is_file(id: u64) -> spec_fn(ScriptEntryView) -> bool {
    |entry: ScriptEntryView| entry.location == ScriptLocationView::File(id)
}

impl AppView {
    /// What is remembered at the start: nothing is known, and the devices are asked for.
    pub open spec fn initial(now: u64) -> Self {
        AppView {
            devices: Seq::empty(),
            apps: Seq::empty(),
            processes: Seq::empty(),
            selected_device: None,
            selected_app: None,
            selected_process: None,
            app_filter: Seq::empty(),
            process_filter: Seq::empty(),
            manual_pid: Seq::empty(),
            script_entries: Seq::empty(),
            selected_script: None,
            script_name: Seq::empty(),
            script_source: Seq::empty(),
            device_status: None,
            logs: Seq::empty(),
            busy: false,
            attached: false,
            script_running: false,
            last_pid_refresh: now,
            has_successful_process_list: false,
            has_logged_process_list: false,
            outbox: seq![WorkerCommandView::RefreshDevices],
        }
    }

    /// The identifier of the selected device.
    pub open spec fn selected_udid(self) -> Option<Seq<char>> {
        match self.selected_device {
            Some(index) => if index < self.devices.len() {
                Some(self.devices[index as int].udid)
            } else {
                None
            },
            None => None,
        }
    }

    /// The apps that the filter lets through; a blank filter lets all through.
    pub open spec fn filtered_apps(self) -> Seq<AppInfoView> {
        let filter = lowercase_of(trimmed(self.app_filter));
        if filter.len() == 0 {
            self.apps
        } else {
            kept(self.apps, app_matches(filter))
        }
    }

    /// The processes that the filter lets through; a blank filter lets all through.
    pub open spec fn filtered_processes(self) -> Seq<ProcessInfoView> {
        let filter = lowercase_of(trimmed(self.process_filter));
        if filter.len() == 0 {
            self.processes
        } else {
            kept(self.processes, process_matches(filter))
        }
    }

    /// The bundle identifier of the selected app.
    pub open spec fn selected_bundle_id(self) -> Option<Seq<char>> {
        match self.selected_app {
            Some(index) => if index < self.filtered_apps().len() {
                Some(self.filtered_apps()[index as int].bundle_id)
            } else {
                None
            },
            None => None,
        }
    }

    /// The selected script.
    pub open spec fn selected_script_entry(self) -> Option<ScriptEntryView> {
        match self.selected_script {
            Some(index) => if index < self.script_entries.len() {
                Some(self.script_entries[index as int])
            } else {
                None
            },
            None => None,
        }
    }

    /// The selected script may be deleted.
    pub open spec fn selected_script_is_editable(self) -> bool {
        self.selected_script_entry() matches Some(entry) && entry.editable
    }

    /// The name and source of the script to run; there is none without a name.
    pub open spec fn current_script(self) -> Option<(Seq<char>, Seq<char>)> {
        let name = trimmed(self.script_name);
        if name.len() == 0 {
            None
        } else {
            Some((name, self.script_source))
        }
    }

    /// The line that shows the selected device.
    pub open spec fn selected_device_label(self) -> Seq<char> {
        match self.selected_device {
            Some(index) if index < self.devices.len() => device_line(self.devices[index as int]),
            _ => "Select a device"@,
        }
    }

    /// The process number that was entered.
    pub open spec fn entered_pid(self) -> Option<u32> {
        number_in(trimmed(self.manual_pid))
    }

    /// The position of the first script with that name, but for the case of `A` to `Z`.
    pub open spec fn script_named(self, name: Seq<char>) -> Option<usize> {
        first_at(self.script_entries, has_similar_name(name))
    }

    // -----------------------------------------------------------------------------------------
    // Changes
    // -----------------------------------------------------------------------------------------

    /// One more line in the log.
    pub open spec fn log(self, line: Seq<char>) -> Self {
        AppView { logs: self.logs.push(line), ..self }
    }

    /// A command for the worker. Running a script is taken to have begun at once, and stopping to
    /// have ended everything at once.
    pub open spec fn send(self, command: WorkerCommandView) -> Self {
        AppView {
            script_running: match command {
                WorkerCommandView::LaunchAndAttachAndRunScript { .. } => true,
                WorkerCommandView::AttachAndRun { .. } => true,
                WorkerCommandView::Stop => false,
                _ => self.script_running,
            },
            attached: self.attached && !(command is Stop),
            outbox: self.outbox.push(command),
            ..self
        }
    }

    /// The worker could not be reached.
    pub open spec fn worker_unavailable(self) -> Self {
        AppView { script_running: false, ..self.log("Worker is unavailable"@) }
    }

    /// Another device is selected: what is known of the last one is forgotten, and the apps of the
    /// new one are asked for.
    pub open spec fn select_device(self, index: usize, now: u64) -> Self {
        let cleared = AppView {
            selected_device: Some(index),
            apps: Seq::empty(),
            processes: Seq::empty(),
            selected_app: None,
            selected_process: None,
            device_status: None,
            has_successful_process_list: false,
            has_logged_process_list: false,
            last_pid_refresh: now,
            ..self
        };
        match cleared.selected_udid() {
            Some(udid) => cleared.send(WorkerCommandView::ListApps { udid }),
            None => cleared,
        }
    }
}

impl DebuggerApp {
    /// The memory at the start: nothing is known, and the devices are asked for.
    pub fn new(now: u64) -> (app: Self)
        ensures
            app@ == AppView::initial(now),
    {
        let mut outbox: Vec<WorkerCommand> = Vec::new();
        outbox.push(WorkerCommand::RefreshDevices);
        assert(views(outbox@) =~= seq![WorkerCommandView::RefreshDevices]);
        DebuggerApp {
            devices: Vec::new(),
            apps: Vec::new(),
            processes: Vec::new(),
            selected_device: None,
            selected_app: None,
            selected_process: None,
            app_filter: String::new(),
            process_filter: String::new(),
            manual_pid: String::new(),
            script_entries: Vec::new(),
            selected_script: None,
            script_name: String::new(),
            script_source: String::new(),
            device_status: None,
            logs: Vec::new(),
            busy: false,
            attached: false,
            script_running: false,
            last_pid_refresh: now,
            has_successful_process_list: false,
            has_logged_process_list: false,
            outbox,
        }
    }

    /// The identifier of the selected device.
    pub fn selected_udid(&self) -> (udid: Option<String>)
        ensures
            option_view(udid) == self@.selected_udid(),
    {
        match self.selected_device {
            Some(index) => if index < self.devices.len() {
                Some(self.devices[index].udid.clone())
            } else {
                None
            },
            None => None,
        }
    }

    /// The apps that the filter lets through.
    pub fn filtered_apps(&self) -> (apps: Vec<AppInfo>)
        ensures
            views(apps@) == self@.filtered_apps(),
    {
        let inner = trim(self.app_filter.as_str());
        let filter = lowercase(inner.as_str());
        let everything: bool = filter.as_str().is_empty();
        let ghost all = self@.apps;
        let ghost holds = app_matches(filter@);
        let mut apps: Vec<AppInfo> = Vec::new();
        for i in 0..self.apps.len()
            invariant
                all == views(self.apps@),
                holds == app_matches(filter@),
                views(apps@) == if everything {
                    all.take(i as int)
                } else {
                    kept(all.take(i as int), holds)
                },
        {
            let app: &AppInfo = &self.apps[i];
            proof {
                lemma_take_one_more(all, i as int, holds);
                assert(all.take(i + 1) =~= all.take(i as int).push(app@));
            }
            let shown: bool = everything || {
                let name = lowercase(app.name.as_str());
                let bundle_id = lowercase(app.bundle_id.as_str());
                contains(name.as_str(), filter.as_str()) || contains(
                    bundle_id.as_str(),
                    filter.as_str(),
                )
            };
            if shown {
                apps.push(app.clone());
            }
        }
        assert(all.take(all.len() as int) =~= all);
        apps
    }

    /// The processes that the filter lets through.
    pub fn filtered_processes(&self) -> (processes: Vec<ProcessInfo>)
        ensures
            views(processes@) == self@.filtered_processes(),
    {
        let inner = trim(self.process_filter.as_str());
        let filter = lowercase(inner.as_str());
        let everything: bool = filter.as_str().is_empty();
        let ghost all = self@.processes;
        let ghost holds = process_matches(filter@);
        let mut processes: Vec<ProcessInfo> = Vec::new();
        for i in 0..self.processes.len()
            invariant
                all == views(self.processes@),
                holds == process_matches(filter@),
                views(processes@) == if everything {
                    all.take(i as int)
                } else {
                    kept(all.take(i as int), holds)
                },
        {
            let process: &ProcessInfo = &self.processes[i];
            proof {
                lemma_take_one_more(all, i as int, holds);
                assert(all.take(i + 1) =~= all.take(i as int).push(process@));
            }
            let shown: bool = everything || {
                let name = lowercase(process.name.as_str());
                let number = write_decimal(process.pid as u64);
                contains(name.as_str(), filter.as_str()) || contains(
                    number.as_str(),
                    filter.as_str(),
                )
            };
            if shown {
                processes.push(process.clone());
            }
        }
        assert(all.take(all.len() as int) =~= all);
        processes
    }

    /// The bundle identifier of the selected app.
    pub fn selected_bundle_id(&self) -> (bundle_id: Option<String>)
        ensures
            option_view(bundle_id) == self@.selected_bundle_id(),
    {
        match self.selected_app {
            Some(index) => {
                let apps: Vec<AppInfo> = self.filtered_apps();
                assert(views(apps@).len() == apps@.len());
                if index < apps.len() {
                    Some(apps[index].bundle_id.clone())
                } else {
                    None
                }
            },
            None => None,
        }
    }

    /// The selected script.
    pub fn selected_script_entry(&self) -> (entry: Option<&ScriptEntry>)
        ensures
            option_view(entry) == self@.selected_script_entry(),
    {
        match self.selected_script {
            Some(index) => if index < self.script_entries.len() {
                Some(&self.script_entries[index])
            } else {
                None
            },
            None => None,
        }
    }

    /// Whether the selected script may be deleted.
    pub fn selected_script_is_editable(&self) -> (editable: bool)
        ensures
            editable == self@.selected_script_is_editable(),
    {
        match self.selected_script_entry() {
            Some(entry) => entry.editable,
            None => false,
        }
    }

    /// The name and source of the script to run.
    pub fn current_script(&self) -> (script: Option<(String, String)>)
        ensures
            match script {
                Some((name, source)) => self@.current_script() == Some((name@, source@)),
                None => self@.current_script() is None,
            },
    {
        let name = trim(self.script_name.as_str());
        if name.as_str().is_empty() {
            None
        } else {
            Some((name, self.script_source.clone()))
        }
    }

    /// The line that shows the selected device.
    pub fn selected_device_label(&self) -> (label: String)
        ensures
            label@ == self@.selected_device_label(),
    {
        match self.selected_device {
            Some(index) => if index < self.devices.len() {
                device_label(&self.devices[index])
            } else {
                "Select a device".to_owned()
            },
            None => "Select a device".to_owned(),
        }
    }

    /// The process number that was entered.
    pub fn entered_pid(&self) -> (pid: Option<u32>)
        ensures
            pid == self@.entered_pid(),
    {
        let inner = trim(self.manual_pid.as_str());
        read_number(inner.as_str())
    }

    /// The position of the first script with that name, but for the case of `A` to `Z`.
    pub fn script_index(&self, script_name: &str) -> (index: Option<usize>)
        ensures
            index == self@.script_named(script_name@),
    {
        let test = |entry: &ScriptEntry| -> (yes: bool)
            ensures
                yes == (ascii_lowercase(entry@.name) == ascii_lowercase(script_name@)),
            {
                equal_ignoring_case(entry.name.as_str(), script_name)
            };
        position(&self.script_entries, Ghost(has_similar_name(script_name@)), test)
    }

    /// Adds a line to the log.
    pub fn log(&mut self, line: String)
        ensures
            final(self)@ == old(self)@.log(line@),
    {
        self.logs.push(line);
    }

    /// Asks something of the worker.
    pub fn send(&mut self, command: WorkerCommand)
        ensures
            final(self)@ == old(self)@.send(command@),
    {
        match &command {
            WorkerCommand::LaunchAndAttachAndRunScript { .. } => {
                self.script_running = true;
            },
            WorkerCommand::AttachAndRun { .. } => {
                self.script_running = true;
            },
            WorkerCommand::Stop => {
                self.script_running = false;
                self.attached = false;
            },
            _ => {},
        }
        self.outbox.push(command);
    }

    /// Notes that the worker could not be reached.
    pub fn worker_unavailable(&mut self)
        ensures
            final(self)@ == old(self)@.worker_unavailable(),
    {
        self.script_running = false;
        self.logs.push("Worker is unavailable".to_owned());
    }

    /// Selects a device.
    pub fn select_device(&mut self, index: usize, now: u64)
        ensures
            final(self)@ == old(self)@.select_device(index, now),
    {
        self.selected_device = Some(index);
        self.apps.clear();
        self.processes.clear();
        self.selected_app = None;
        self.selected_process = None;
        self.device_status = None;
        self.has_successful_process_list = false;
        self.has_logged_process_list = false;
        self.last_pid_refresh = now;
        if let Some(udid) = self.selected_udid() {
            self.send(WorkerCommand::ListApps { udid });
        }
    }
}

// ---------------------------------------------------------------------------------------------
// What the filters show
// ---------------------------------------------------------------------------------------------

/// A blank filter hides nothing.
pub proof fn law_blank_filters_show_everything(app: AppView)
    ensures
        is_blank(app.app_filter) ==> app.filtered_apps() == app.apps,
        is_blank(app.process_filter) ==> app.filtered_processes() == app.processes,
{
    if is_blank(app.app_filter) {
        lemma_blank_trims_to_nothing(app.app_filter);
    }
    if is_blank(app.process_filter) {
        lemma_blank_trims_to_nothing(app.process_filter);
    }
}

/// What is shown is listed, and of what is listed all that matches is shown.
pub proof fn law_filters_show_what_matches(app: AppView)
    ensures
        forall|shown: AppInfoView| #[trigger]
            app.filtered_apps().contains(shown) <==> app.apps.contains(shown) && (lowercase_of(
                trimmed(app.app_filter),
            ).len() == 0 || app_matches(lowercase_of(trimmed(app.app_filter)))(shown)),
        forall|shown: ProcessInfoView| #[trigger]
            app.filtered_processes().contains(shown) <==> app.processes.contains(shown) && (
            lowercase_of(trimmed(app.process_filter)).len() == 0 || process_matches(
                lowercase_of(trimmed(app.process_filter)),
            )(shown)),
{
    lemma_kept(app.apps, app_matches(lowercase_of(trimmed(app.app_filter))));
    lemma_kept(app.processes, process_matches(lowercase_of(trimmed(app.process_filter))));
}

/// Filters within ASCII that differ in case alone show the same.
pub proof fn law_filters_ignore_case(app: AppView, filter: Seq<char>)
    requires
        is_ascii_chars(filter),
    ensures
        is_ascii_chars(app.app_filter) && ascii_lowercase(filter) == ascii_lowercase(
            app.app_filter,
        ) ==> (AppView { app_filter: filter, ..app }).filtered_apps() == app.filtered_apps(),
        is_ascii_chars(app.process_filter) && ascii_lowercase(filter) == ascii_lowercase(
            app.process_filter,
        ) ==> (AppView { process_filter: filter, ..app }).filtered_processes()
            == app.filtered_processes(),
{
    if is_ascii_chars(app.app_filter) && ascii_lowercase(filter) == ascii_lowercase(
        app.app_filter,
    ) {
        lemma_case_does_not_matter(filter, app.app_filter);
    }
    if is_ascii_chars(app.process_filter) && ascii_lowercase(filter) == ascii_lowercase(
        app.process_filter,
    ) {
        lemma_case_does_not_matter(filter, app.process_filter);
    }
}

} // verus!
