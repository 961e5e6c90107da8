//! What the window makes of the worker's events.
use vstd::prelude::*;

use crate::controls::law_entered_number_is_read_back;
use crate::debugger::{has_pid, has_udid, AppView, DebuggerApp};
use crate::device::{
    DeviceInfo, DeviceInfoView, ProcessInfo, ProcessInfoView, WorkerCommandView, WorkerEvent,
    WorkerEventView,
};
use crate::host::{format_device_refresh_error, refresh_advice, HostSystem};
use crate::lists::{first_at, lemma_first_at, position};
use crate::text::{
    concat2, concat3, decimal, lemma_views_push, same, views, write_decimal,
};

verus! {

broadcast use lemma_views_push;

impl AppView {
    /// Where the selected device stands in a new list of devices.
    pub open spec fn device_in(self, devices: Seq<DeviceInfoView>) -> Option<usize> {
        match self.selected_udid() {
            Some(udid) => first_at(devices, has_udid(udid)),
            None => None,
        }
    }

    /// A new list of devices: the selected device stays selected by its identifier; where it is
    /// gone, the first device is selected anew.
    pub open spec fn devices_listed(self, devices: Seq<DeviceInfoView>, now: u64) -> Self {
        let listed = AppView { devices, selected_device: self.device_in(devices), ..self };
        if listed.selected_device is None && devices.len() > 0 {
            listed.select_device(0, now)
        } else {
            listed
        }
    }

    /// What an event of the worker changes.
    pub open spec fn handle_event(
        self,
        event: WorkerEventView,
        now: u64,
        system: HostSystem,
    ) -> Self {
        match event {
            WorkerEventView::Busy(busy) => AppView { busy, ..self },
            WorkerEventView::Devices(Ok(devices)) => self.devices_listed(devices, now),
            WorkerEventView::Devices(Err(error)) => self.log(
                "Device refresh failed: "@ + (error + refresh_advice(error, system)),
            ),
            WorkerEventView::DeviceStatus(status) => AppView {
                device_status: Some(Ok(status)),
                ..self
            },
            WorkerEventView::Apps(Ok(apps)) => AppView {
                apps,
                selected_app: None,
                ..self.log("Loaded "@ + decimal(apps.len()) + " app(s) with get-task-allow"@)
            },
            WorkerEventView::Apps(Err(error)) => self.log("App listing failed: "@ + error),
            WorkerEventView::Processes(Ok(processes)) => AppView {
                processes,
                selected_process: match self.selected_process {
                    Some(pid) => if first_at(processes, has_pid(pid)) is Some {
                        Some(pid)
                    } else {
                        None
                    },
                    None => None,
                },
                has_successful_process_list: true,
                has_logged_process_list: true,
                last_pid_refresh: now,
                ..if self.has_logged_process_list {
                    self
                } else {
                    self.log("Loaded "@ + decimal(processes.len()) + " running process(es)"@)
                }
            },
            WorkerEventView::Processes(Err(error)) => AppView {
                has_successful_process_list: false,
                ..self.log("Process listing failed: "@ + error)
            },
            WorkerEventView::Launched(Ok(pid)) => AppView {
                manual_pid: decimal(pid as nat),
                selected_process: Some(pid),
                ..self.log("Launched process pid="@ + decimal(pid as nat))
            },
            WorkerEventView::Launched(Err(error)) => self.log("Launch failed: "@ + error),
            WorkerEventView::Attached(Ok(response)) => AppView {
                attached: true,
                ..self.log("Attached: "@ + response)
            },
            WorkerEventView::Attached(Err(error)) => AppView {
                script_running: false,
                ..self.log("Attach failed: "@ + error)
            },
            WorkerEventView::DebugResponse(Ok(response)) => AppView {
                attached: false,
                ..self.log("debugserver: "@ + response)
            },
            WorkerEventView::DebugResponse(Err(error)) => self.log("Command failed: "@ + error),
            WorkerEventView::ScriptFinished(Ok(_)) => AppView {
                script_running: false,
                ..self.log("Script finished"@)
            },
            WorkerEventView::ScriptFinished(Err(error)) => AppView {
                script_running: false,
                ..self.log("Script failed: "@ + error)
            },
            WorkerEventView::Log(message) => self.log(message),
        }
    }
}

/// The position of the first device with that identifier.
fn device_index(devices: &Vec<DeviceInfo>, udid: &str) -> (index: Option<usize>)
    ensures
        index == first_at(views(devices@), has_udid(udid@)),
{
    let test = |device: &DeviceInfo| -> (yes: bool)
        ensures
            yes == (device@.udid == udid@),
        {
            same(device.udid.as_str(), udid)
        };
    position(devices, Ghost(has_udid(udid@)), test)
}

/// Whether one of the processes has that number.
fn runs(processes: &Vec<ProcessInfo>, pid: u32) -> (found: bool)
    ensures
        found == first_at(views(processes@), has_pid(pid)) is Some,
{
    let test = |process: &ProcessInfo| -> (yes: bool)
        ensures
            yes == (process@.pid == pid),
        {
            process.pid == pid
        };
    position(processes, Ghost(has_pid(pid)), test).is_some()
}

impl DebuggerApp {
    /// Takes a new list of devices.
    pub fn devices_listed(&mut self, devices: Vec<DeviceInfo>, now: u64)
        ensures
            final(self)@ == old(self)@.devices_listed(views(devices@), now),
    {
        let selected: Option<usize> = match self.selected_udid() {
            Some(udid) => device_index(&devices, udid.as_str()),
            None => None,
        };
        let fresh: bool = selected.is_none() && devices.len() > 0;
        self.devices = devices;
        self.selected_device = selected;
        if fresh {
            self.select_device(0, now);
        }
    }

    /// Takes an event of the worker.
    pub fn handle_event(&mut self, event: WorkerEvent, now: u64, system: &HostSystem)
        ensures
            final(self)@ == old(self)@.handle_event(event@, now, *system),
    {
        match event {
            WorkerEvent::Busy(busy) => {
                self.busy = busy;
            },
            WorkerEvent::Devices(Ok(devices)) => {
                self.devices_listed(devices, now);
            },
            WorkerEvent::Devices(Err(error)) => {
                let message = format_device_refresh_error(error.as_str(), system);
                self.log(concat2("Device refresh failed: ", message.as_str()));
            },
            WorkerEvent::DeviceStatus(status) => {
                self.device_status = Some(Ok(status));
            },
            WorkerEvent::Apps(Ok(apps)) => {
                let count = write_decimal(apps.len() as u64);
                self.log(concat3("Loaded ", count.as_str(), " app(s) with get-task-allow"));
                self.apps = apps;
                self.selected_app = None;
            },
            WorkerEvent::Apps(Err(error)) => {
                self.log(concat2("App listing failed: ", error.as_str()));
            },
            WorkerEvent::Processes(Ok(processes)) => {
                if !self.has_logged_process_list {
                    let count = write_decimal(processes.len() as u64);
                    self.log(concat3("Loaded ", count.as_str(), " running process(es)"));
                    self.has_logged_process_list = true;
                }
                self.has_successful_process_list = true;
                self.last_pid_refresh = now;
                let stays: bool = match self.selected_process {
                    Some(pid) => runs(&processes, pid),
                    None => false,
                };
                if !stays {
                    self.selected_process = None;
                }
                self.processes = processes;
            },
            WorkerEvent::Processes(Err(error)) => {
                self.has_successful_process_list = false;
                self.log(concat2("Process listing failed: ", error.as_str()));
            },
            WorkerEvent::Launched(Ok(pid)) => {
                let number = write_decimal(pid as u64);
                self.log(concat2("Launched process pid=", number.as_str()));
                self.manual_pid = number;
                self.selected_process = Some(pid);
            },
            WorkerEvent::Launched(Err(error)) => {
                self.log(concat2("Launch failed: ", error.as_str()));
            },
            WorkerEvent::Attached(Ok(response)) => {
                self.attached = true;
                self.log(concat2("Attached: ", response.as_str()));
            },
            WorkerEvent::Attached(Err(error)) => {
                self.script_running = false;
                self.log(concat2("Attach failed: ", error.as_str()));
            },
            WorkerEvent::DebugResponse(Ok(response)) => {
                self.attached = false;
                self.log(concat2("debugserver: ", response.as_str()));
            },
            WorkerEvent::DebugResponse(Err(error)) => {
                self.log(concat2("Command failed: ", error.as_str()));
            },
            WorkerEvent::ScriptFinished(Ok(_)) => {
                self.script_running = false;
                self.log("Script finished".to_owned());
            },
            WorkerEvent::ScriptFinished(Err(error)) => {
                self.script_running = false;
                self.log(concat2("Script failed: ", error.as_str()));
            },
            WorkerEvent::Log(message) => {
                self.log(message);
            },
        }
    }
}

// ---------------------------------------------------------------------------------------------
// What events keep
// ---------------------------------------------------------------------------------------------

/// A selected device that is still there stays selected, and nothing else that is known of it
/// changes. Where it is gone, what was known of it is forgotten, the first device is selected and
/// its apps are asked for.
pub proof fn law_selected_device_stays(app: AppView, devices: Seq<DeviceInfoView>, now: u64)
    requires
        0 < devices.len() <= usize::MAX,
    ensures
        ({
            let after = app.devices_listed(devices, now);
            let there = app.selected_udid() is Some && exists|i: int|
                0 <= i < devices.len() && (#[trigger] devices[i]).udid == app.selected_udid()->0;
            &&& there ==> after.selected_udid() == app.selected_udid() && after == (AppView {
                devices,
                selected_device: after.selected_device,
                ..app
            })
            &&& !there ==> {
                &&& after.selected_udid() == Some(devices[0].udid)
                &&& after.apps.len() == 0 && after.processes.len() == 0
                &&& after.selected_app is None && after.selected_process is None
                &&& after.device_status is None
                &&& after.outbox == app.outbox.push(
                    WorkerCommandView::ListApps { udid: devices[0].udid },
                )
            }
        }),
{
    if app.selected_udid() is Some {
        lemma_first_at(devices, has_udid(app.selected_udid()->0));
    }
}

/// A selected process stays selected exactly while it is listed.
pub proof fn law_selected_process_stays_while_listed(
    app: AppView,
    processes: Seq<ProcessInfoView>,
    now: u64,
    system: HostSystem,
)
    requires
        processes.len() <= usize::MAX,
    ensures
        ({
            let after = app.handle_event(WorkerEventView::Processes(Ok(processes)), now, system);
            match app.selected_process {
                Some(pid) => if exists|i: int|
                    0 <= i < processes.len() && (#[trigger] processes[i]).pid == pid {
                    after.selected_process == Some(pid)
                } else {
                    after.selected_process is None
                },
                None => after.selected_process is None,
            }
        }),
{
    if app.selected_process is Some {
        lemma_first_at(processes, has_pid(app.selected_process->0));
    }
}

/// The number of a launched process is the entered one, so that it can be attached to.
pub proof fn law_launched_process_is_entered(app: AppView, pid: u32, now: u64, system: HostSystem)
    ensures
        ({
            let after = app.handle_event(WorkerEventView::Launched(Ok(pid)), now, system);
            &&& after.entered_pid() == Some(pid)
            &&& after.selected_process == Some(pid)
            &&& after.selected_udid() is Some ==> after.can_attach()
        }),
{
    law_entered_number_is_read_back(app, pid);
}

/// A failed attachment, a finished script and a failed script each end what is shown as a running
/// script.
pub proof fn law_script_is_not_shown_after_its_end(
    app: AppView,
    error: Seq<char>,
    now: u64,
    system: HostSystem,
)
    ensures
        !app.handle_event(WorkerEventView::Attached(Err(error)), now, system).script_running,
        !app.handle_event(WorkerEventView::ScriptFinished(Ok(())), now, system).script_running,
        !app.handle_event(WorkerEventView::ScriptFinished(Err(error)), now, system).script_running,
{
}

} // verus!
