//! What the window's buttons and lists do, and when they can be used.
use vstd::prelude::*;

use crate::catalog::recommendation_possible;
use crate::debugger::{AppView, DebuggerApp, PROCESS_REFRESH_INTERVAL};
use crate::device::{AppInfo, ProcessInfo, WorkerCommand, WorkerCommandView};
use crate::text::{
    ascii_lowercase, decimal, equal_ignoring_case, is_white_space, law_number_round_trip,
    lemma_nothing_to_trim, lemma_views_empty, lemma_views_push, option_view, outcome_view, views,
    write_decimal,
};

verus! {

broadcast use {lemma_views_empty, lemma_views_push};

/// The texts, one after the other, with a line break between two of them.
pub open spec fn joined(lines: Seq<Seq<char>>) -> Seq<char>
    decreases lines.len(),
{
    if lines.len() == 0 {
        Seq::empty()
    } else if lines.len() == 1 {
        lines[0]
    } else {
        joined(lines.drop_last()) + "\n"@ + lines.last()
    }
}

impl AppView {
    /// The devices are asked for.
    pub open spec fn refresh_devices(self) -> Self {
        self.send(WorkerCommandView::RefreshDevices)
    }

    /// What runs is to stop.
    pub open spec fn stop(self) -> Self {
        self.send(WorkerCommandView::Stop)
    }

    /// The apps of the selected device are asked for.
    pub open spec fn refresh_selected_device_lists(self) -> Self {
        match self.selected_udid() {
            Some(udid) => self.send(WorkerCommandView::ListApps { udid }),
            None => self.log("Select a device first"@),
        }
    }

    /// The processes of the selected device are asked for.
    pub open spec fn refresh_processes(self, now: u64) -> Self {
        match self.selected_udid() {
            Some(udid) => AppView {
                last_pid_refresh: now,
                ..self.send(WorkerCommandView::ListProcesses { udid })
            },
            None => self,
        }
    }

    /// The list of processes has grown old, and the worker is free to renew it.
    pub open spec fn processes_due(self, now: u64) -> bool {
        &&& !self.busy
        &&& self.selected_device is Some
        &&& self.has_successful_process_list
        &&& now - self.last_pid_refresh >= PROCESS_REFRESH_INTERVAL
    }

    /// The processes are asked for once the list of them has grown old.
    pub open spec fn maybe_refresh_processes(self, now: u64) -> Self {
        if self.processes_due(now) {
            self.refresh_processes(now)
        } else {
            self
        }
    }

    /// A word of advice for the app that contains others.
    pub open spec fn note_livecontainer(self, target: Seq<char>) -> Self {
        if ascii_lowercase(target) == ascii_lowercase("LiveContainer"@) {
            self.log(
                "LiveContainer selected. Ensure you select the corresponding script for your containerized app."@,
            )
        } else {
            self
        }
    }

    /// A target was chosen: its script is loaded.
    pub open spec fn choose_target(
        self,
        target: Seq<char>,
        recommended: Option<Seq<char>>,
        file: Result<Seq<char>, Seq<char>>,
    ) -> Self {
        self.auto_select_script(target, recommended, file).note_livecontainer(target)
    }

    /// The app at a position of the filtered list is selected.
    pub open spec fn select_app(
        self,
        index: usize,
        recommended: Option<Seq<char>>,
        file: Result<Seq<char>, Seq<char>>,
    ) -> Self {
        if index < self.filtered_apps().len() {
            AppView { selected_app: Some(index), ..self }.choose_target(
                self.filtered_apps()[index as int].name,
                recommended,
                file,
            )
        } else {
            self
        }
    }

    /// The process at a position of the filtered list is selected.
    pub open spec fn select_process(
        self,
        index: usize,
        recommended: Option<Seq<char>>,
        file: Result<Seq<char>, Seq<char>>,
    ) -> Self {
        if index < self.filtered_processes().len() {
            let process = self.filtered_processes()[index as int];
            AppView {
                selected_process: Some(process.pid),
                manual_pid: decimal(process.pid as nat),
                ..self
            }.choose_target(process.name, recommended, file)
        } else {
            self
        }
    }

    /// A process number is entered.
    pub open spec fn edit_manual_pid(self, text: Seq<char>) -> Self {
        let edited = AppView { manual_pid: text, ..self };
        AppView { selected_process: edited.entered_pid(), ..edited }
    }

    /// The log was copied, which is noted in it.
    pub open spec fn copy_logs(self) -> Self {
        self.log("Copied logs to clipboard"@)
    }

    /// The log is emptied.
    pub open spec fn clear_logs(self) -> Self {
        AppView { logs: Seq::empty(), ..self }
    }

    /// An app can be launched.
    pub open spec fn can_launch(self) -> bool {
        self.selected_udid() is Some && self.selected_bundle_id() is Some
    }

    /// An app can be launched and a script run on it.
    pub open spec fn can_launch_and_run(self) -> bool {
        self.can_launch() && self.current_script() is Some
    }

    /// A process can be attached to.
    pub open spec fn can_attach(self) -> bool {
        self.selected_udid() is Some && self.entered_pid() is Some
    }

    /// A process can be attached to and a script run on it.
    pub open spec fn can_attach_and_run(self) -> bool {
        self.can_attach() && self.current_script() is Some
    }

    /// There is something to stop.
    pub open spec fn can_stop(self) -> bool {
        self.attached || self.script_running
    }

    /// A script can be imported now.
    pub open spec fn can_import_script(self) -> bool {
        !self.script_running
    }

    /// Another script can be selected now.
    pub open spec fn can_switch_script(self) -> bool {
        !self.script_running
    }

    /// The selected script can be deleted now.
    pub open spec fn can_delete_script(self) -> bool {
        !self.script_running && self.selected_script_is_editable()
    }

    /// The selected app is launched and attached to.
    pub open spec fn launch(self) -> Self {
        match (self.selected_udid(), self.selected_bundle_id()) {
            (Some(udid), Some(bundle_id)) => self.send(
                WorkerCommandView::LaunchAndAttach { udid, bundle_id },
            ),
            _ => self,
        }
    }

    /// The selected app is launched and the script run on it.
    pub open spec fn launch_and_run(self) -> Self {
        match (self.selected_udid(), self.selected_bundle_id(), self.current_script()) {
            (Some(udid), Some(bundle_id), Some((name, source))) => self.send(
                WorkerCommandView::LaunchAndAttachAndRunScript { udid, bundle_id, name, source },
            ),
            _ => self,
        }
    }

    /// The entered process is attached to.
    pub open spec fn attach(self) -> Self {
        match (self.selected_udid(), self.entered_pid()) {
            (Some(udid), Some(pid)) => self.send(WorkerCommandView::Attach { udid, pid }),
            (None, _) => self.log("Select a device first"@),
            (_, None) => self.log("Enter a numeric PID"@),
        }
    }

    /// The entered process is attached to and the script run on it.
    pub open spec fn attach_and_run(self) -> Self {
        match (self.selected_udid(), self.entered_pid(), self.current_script()) {
            (Some(udid), Some(pid), Some((name, source))) => self.send(
                WorkerCommandView::AttachAndRun { udid, pid, name, source },
            ),
            (None, _, _) => self.log("Select a device first"@),
            (_, None, _) => self.log("Enter a numeric PID"@),
            (_, _, None) => self.log("Select or name a script first"@),
        }
    }
}

impl DebuggerApp {
    // -----------------------------------------------------------------------------------------
    // Asking for lists
    // -----------------------------------------------------------------------------------------

    /// Asks for the devices.
    pub fn refresh_devices(&mut self)
        ensures
            final(self)@ == old(self)@.refresh_devices(),
    {
        self.send(WorkerCommand::RefreshDevices);
    }

    /// Asks for the apps of the selected device, after which the worker lists its processes too.
    pub fn refresh_selected_device_lists(&mut self)
        ensures
            final(self)@ == old(self)@.refresh_selected_device_lists(),
    {
        match self.selected_udid() {
            Some(udid) => {
                self.send(WorkerCommand::ListApps { udid });
            },
            None => {
                self.log("Select a device first".to_owned());
            },
        }
    }

    /// Asks for the processes of the selected device.
    pub fn refresh_processes(&mut self, now: u64)
        ensures
            final(self)@ == old(self)@.refresh_processes(now),
    {
        if let Some(udid) = self.selected_udid() {
            self.send(WorkerCommand::ListProcesses { udid });
            self.last_pid_refresh = now;
        }
    }

    /// Asks for the processes once the list of them has grown old.
    pub fn maybe_refresh_processes(&mut self, now: u64)
        ensures
            final(self)@ == old(self)@.maybe_refresh_processes(now),
    {
        if self.busy || self.selected_device.is_none() || !self.has_successful_process_list {
            return;
        }
        if now >= self.last_pid_refresh && now - self.last_pid_refresh >= PROCESS_REFRESH_INTERVAL {
            self.refresh_processes(now);
        }
    }

    // -----------------------------------------------------------------------------------------
    // Choosing a target
    // -----------------------------------------------------------------------------------------

    /// Logs a word of advice for the app that contains others.
    pub fn maybe_log_livecontainer_selected(&mut self, target_name: &str)
        ensures
            final(self)@ == old(self)@.note_livecontainer(target_name@),
    {
        if equal_ignoring_case(target_name, "LiveContainer") {
            self.log(
                "LiveContainer selected. Ensure you select the corresponding script for your containerized app.".to_owned(),
            );
        }
    }

    /// The name of the app at a position of the filtered list.
    pub fn app_name_at(&self, index: usize) -> (name: Option<String>)
        ensures
            option_view(name) == (if index < self@.filtered_apps().len() {
                Some(self@.filtered_apps()[index as int].name)
            } else {
                None
            }),
    {
        let apps: Vec<AppInfo> = self.filtered_apps();
        assert(views(apps@).len() == apps@.len());
        if index < apps.len() {
            Some(apps[index].name.clone())
        } else {
            None
        }
    }

    /// Selects the app at a position of the filtered list, and loads the script that is
    /// recommended for it, given what reading that script's file gave.
    pub fn select_app_with(
        &mut self,
        index: usize,
        recommended: Option<&str>,
        file: Result<String, String>,
    )
        ensures
            final(self)@ == old(self)@.select_app(
                index,
                option_view(recommended),
                outcome_view(file),
            ),
    {
        if let Some(name) = self.app_name_at(index) {
            self.selected_app = Some(index);
            self.auto_select_script(name.as_str(), recommended, file);
            self.maybe_log_livecontainer_selected(name.as_str());
        }
    }

    /// Selects the app at a position of the filtered list, and loads the script that goes with its
    /// name, given what reading that script's file gave.
    pub fn select_app(&mut self, index: usize, file: Result<String, String>)
        ensures
            index >= old(self)@.filtered_apps().len() ==> final(self)@ == old(self)@,
            index < old(self)@.filtered_apps().len() ==> exists|recommended: Option<Seq<char>>|
                #[trigger]
                recommendation_possible(
                    old(self)@.filtered_apps()[index as int].name,
                    recommended,
                ) && final(self)@ == old(self)@.select_app(index, recommended, outcome_view(file)),
    {
        if let Some(name) = self.app_name_at(index) {
            self.selected_app = Some(index);
            self.auto_select_script_for_target(name.as_str(), file);
            self.maybe_log_livecontainer_selected(name.as_str());
        }
    }

    /// The process at a position of the filtered list.
    pub fn process_at(&self, index: usize) -> (process: Option<ProcessInfo>)
        ensures
            option_view(process) == (if index < self@.filtered_processes().len() {
                Some(self@.filtered_processes()[index as int])
            } else {
                None
            }),
    {
        let processes: Vec<ProcessInfo> = self.filtered_processes();
        assert(views(processes@).len() == processes@.len());
        if index < processes.len() {
            Some(processes[index].clone())
        } else {
            None
        }
    }

    /// Selects the process at a position of the filtered list, and loads the script that is
    /// recommended for it, given what reading that script's file gave.
    pub fn select_process_with(
        &mut self,
        index: usize,
        recommended: Option<&str>,
        file: Result<String, String>,
    )
        ensures
            final(self)@ == old(self)@.select_process(
                index,
                option_view(recommended),
                outcome_view(file),
            ),
    {
        if let Some(process) = self.process_at(index) {
            self.selected_process = Some(process.pid);
            self.manual_pid = write_decimal(process.pid as u64);
            self.auto_select_script(process.name.as_str(), recommended, file);
            self.maybe_log_livecontainer_selected(process.name.as_str());
        }
    }

    /// Selects the process at a position of the filtered list, and loads the script that goes with
    /// its name, given what reading that script's file gave.
    pub fn select_process(&mut self, index: usize, file: Result<String, String>)
        ensures
            index >= old(self)@.filtered_processes().len() ==> final(self)@ == old(self)@,
            index < old(self)@.filtered_processes().len() ==> exists|
                recommended: Option<Seq<char>>,
            | #[trigger]
                recommendation_possible(
                    old(self)@.filtered_processes()[index as int].name,
                    recommended,
                ) && final(self)@ == old(self)@.select_process(
                    index,
                    recommended,
                    outcome_view(file),
                ),
    {
        if let Some(process) = self.process_at(index) {
            self.selected_process = Some(process.pid);
            self.manual_pid = write_decimal(process.pid as u64);
            let ghost chosen = self@;
            self.auto_select_script_for_target(process.name.as_str(), file);
            let ghost recommended = choose|recommended: Option<Seq<char>>| #[trigger]
                recommendation_possible(process.name@, recommended) && self@
                    == chosen.auto_select_script(process.name@, recommended, outcome_view(file));
            self.maybe_log_livecontainer_selected(process.name.as_str());
            assert(self@ == old(self)@.select_process(index, recommended, outcome_view(file)));
        }
    }

    /// Takes the text that was entered for a process number.
    pub fn edit_manual_pid(&mut self, text: String)
        ensures
            final(self)@ == old(self)@.edit_manual_pid(text@),
    {
        self.manual_pid = text;
        self.selected_process = self.entered_pid();
    }

    // -----------------------------------------------------------------------------------------
    // Starting and stopping
    // -----------------------------------------------------------------------------------------

    /// Whether an app can be launched.
    pub fn can_launch(&self) -> (can: bool)
        ensures
            can == self@.can_launch(),
    {
        self.selected_udid().is_some() && self.selected_bundle_id().is_some()
    }

    /// Whether an app can be launched and a script run on it.
    pub fn can_launch_and_run(&self) -> (can: bool)
        ensures
            can == self@.can_launch_and_run(),
    {
        self.can_launch() && self.current_script().is_some()
    }

    /// Whether a process can be attached to.
    pub fn can_attach(&self) -> (can: bool)
        ensures
            can == self@.can_attach(),
    {
        self.selected_udid().is_some() && self.entered_pid().is_some()
    }

    /// Whether a process can be attached to and a script run on it.
    pub fn can_attach_and_run(&self) -> (can: bool)
        ensures
            can == self@.can_attach_and_run(),
    {
        self.can_attach() && self.current_script().is_some()
    }

    /// Whether there is something to stop.
    pub fn can_stop(&self) -> (can: bool)
        ensures
            can == self@.can_stop(),
    {
        self.attached || self.script_running
    }

    /// Whether a script can be imported now.
    pub fn can_import_script(&self) -> (can: bool)
        ensures
            can == self@.can_import_script(),
    {
        !self.script_running
    }

    /// Whether another script can be selected now.
    pub fn can_switch_script(&self) -> (can: bool)
        ensures
            can == self@.can_switch_script(),
    {
        !self.script_running
    }

    /// Whether the selected script can be deleted now.
    pub fn can_delete_script(&self) -> (can: bool)
        ensures
            can == self@.can_delete_script(),
    {
        !self.script_running && self.selected_script_is_editable()
    }

    /// Launches the selected app and attaches to it.
    pub fn launch(&mut self)
        ensures
            final(self)@ == old(self)@.launch(),
    {
        if let (Some(udid), Some(bundle_id)) = (self.selected_udid(), self.selected_bundle_id()) {
            self.send(WorkerCommand::LaunchAndAttach { udid, bundle_id });
        }
    }

    /// Launches the selected app and runs the script on it.
    pub fn launch_and_run(&mut self)
        ensures
            final(self)@ == old(self)@.launch_and_run(),
    {
        if let (Some(udid), Some(bundle_id), Some((name, source))) = (
            self.selected_udid(),
            self.selected_bundle_id(),
            self.current_script(),
        ) {
            self.send(
                WorkerCommand::LaunchAndAttachAndRunScript { udid, bundle_id, name, source },
            );
        }
    }

    /// Attaches to the entered process.
    pub fn attach(&mut self)
        ensures
            final(self)@ == old(self)@.attach(),
    {
        match (self.selected_udid(), self.entered_pid()) {
            (Some(udid), Some(pid)) => {
                self.send(WorkerCommand::Attach { udid, pid });
            },
            (None, _) => {
                self.log("Select a device first".to_owned());
            },
            (_, None) => {
                self.log("Enter a numeric PID".to_owned());
            },
        }
    }

    /// Attaches to the entered process and runs the script on it.
    pub fn attach_and_run(&mut self)
        ensures
            final(self)@ == old(self)@.attach_and_run(),
    {
        match (self.selected_udid(), self.entered_pid(), self.current_script()) {
            (Some(udid), Some(pid), Some((name, source))) => {
                self.send(WorkerCommand::AttachAndRun { udid, pid, name, source });
            },
            (None, _, _) => {
                self.log("Select a device first".to_owned());
            },
            (_, None, _) => {
                self.log("Enter a numeric PID".to_owned());
            },
            (_, _, None) => {
                self.log("Select or name a script first".to_owned());
            },
        }
    }

    /// Stops what runs.
    pub fn stop(&mut self)
        ensures
            final(self)@ == old(self)@.stop(),
    {
        self.send(WorkerCommand::Stop);
    }

    // -----------------------------------------------------------------------------------------
    // The log
    // -----------------------------------------------------------------------------------------

    /// The log as one text.
    pub fn log_text(&self) -> (text: String)
        ensures
            text@ == joined(self@.logs),
    {
        let ghost lines = views(self.logs@);
        let mut text = String::new();
        for i in 0..self.logs.len()
            invariant
                lines == views(self.logs@),
                text@ == joined(lines.take(i as int)),
        {
            proof {
                assert(lines.take(i + 1).drop_last() =~= lines.take(i as int));
            }
            if i > 0 {
                text.append("\n");
            }
            text.append(self.logs[i].as_str());
            assert(i == 0 ==> text@ =~= lines[0]);
        }
        assert(lines.take(lines.len() as int) =~= lines);
        text
    }

    /// The log as one text, to be copied, which is then noted in the log.
    pub fn copy_logs(&mut self) -> (text: String)
        ensures
            text@ == joined(old(self)@.logs),
            final(self)@ == old(self)@.copy_logs(),
    {
        let text = self.log_text();
        self.log("Copied logs to clipboard".to_owned());
        text
    }

    /// Empties the log.
    pub fn clear_logs(&mut self)
        ensures
            final(self)@ == old(self)@.clear_logs(),
    {
        self.logs.clear();
    }
}

// ---------------------------------------------------------------------------------------------
// What the controls keep
// ---------------------------------------------------------------------------------------------

/// A decimal numeral neither starts nor ends with white space.
proof fn lemma_numeral_is_visible(number: nat)
    ensures
        decimal(number).len() > 0,
        !is_white_space(decimal(number)[0]),
        !is_white_space(decimal(number).last()),
    decreases number,
{
    if number >= 10 {
        lemma_numeral_is_visible(number / 10);
    }
}

/// A number that was written as the entered one is read back as it was.
pub proof fn law_entered_number_is_read_back(app: AppView, pid: u32)
    ensures
        (AppView { manual_pid: decimal(pid as nat), ..app }).entered_pid() == Some(pid),
{
    lemma_numeral_is_visible(pid as nat);
    lemma_nothing_to_trim(decimal(pid as nat));
    law_number_round_trip(pid);
}

/// Selecting a listed process enters its number.
pub proof fn law_selected_process_is_entered(
    app: AppView,
    index: usize,
    recommended: Option<Seq<char>>,
    file: Result<Seq<char>, Seq<char>>,
)
    requires
        index < app.filtered_processes().len(),
    ensures
        ({
            let after = app.select_process(index, recommended, file);
            &&& after.selected_process == Some(app.filtered_processes()[index as int].pid)
            &&& after.entered_pid() == after.selected_process
        }),
{
    law_entered_number_is_read_back(app, app.filtered_processes()[index as int].pid);
}

/// A button that can be used does what it says: it sends its command, with what is selected, and
/// logs nothing.
pub proof fn law_usable_buttons_send(app: AppView)
    ensures
        app.can_launch() ==> app.launch() == app.send(
            WorkerCommandView::LaunchAndAttach {
                udid: app.selected_udid()->0,
                bundle_id: app.selected_bundle_id()->0,
            },
        ),
        app.can_launch_and_run() ==> app.launch_and_run() == app.send(
            WorkerCommandView::LaunchAndAttachAndRunScript {
                udid: app.selected_udid()->0,
                bundle_id: app.selected_bundle_id()->0,
                name: (app.current_script()->0).0,
                source: (app.current_script()->0).1,
            },
        ),
        app.can_attach() ==> app.attach() == app.send(
            WorkerCommandView::Attach {
                udid: app.selected_udid()->0,
                pid: app.entered_pid()->0,
            },
        ),
        app.can_attach_and_run() ==> app.attach_and_run() == app.send(
            WorkerCommandView::AttachAndRun {
                udid: app.selected_udid()->0,
                pid: app.entered_pid()->0,
                name: (app.current_script()->0).0,
                source: (app.current_script()->0).1,
            },
        ),
{
}

/// A button that cannot be used sends nothing.
pub proof fn law_unusable_buttons_send_nothing(app: AppView)
    ensures
        !app.can_launch() ==> app.launch().outbox == app.outbox,
        !app.can_launch_and_run() ==> app.launch_and_run().outbox == app.outbox,
        !app.can_attach() ==> app.attach().outbox == app.outbox,
        !app.can_attach_and_run() ==> app.attach_and_run().outbox == app.outbox,
{
}

/// After stopping nothing is shown as attached or running, and there is nothing left to stop.
pub proof fn law_stopping_leaves_nothing_to_stop(app: AppView)
    ensures
        !app.send(WorkerCommandView::Stop).attached,
        !app.send(WorkerCommandView::Stop).script_running,
        !app.send(WorkerCommandView::Stop).can_stop(),
{
}

/// Once the processes were asked for, they are not due again before the interval has passed.
pub proof fn law_processes_are_asked_for_once_per_interval(app: AppView, now: u64, later: u64)
    requires
        app.processes_due(now),
        app.selected_udid() is Some,
        later < now + PROCESS_REFRESH_INTERVAL,
    ensures
        app.maybe_refresh_processes(now).outbox == app.outbox.push(
            WorkerCommandView::ListProcesses { udid: app.selected_udid()->0 },
        ),
        app.maybe_refresh_processes(now).maybe_refresh_processes(later)
            == app.maybe_refresh_processes(now),
{
}

} // verus!
