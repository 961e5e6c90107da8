//! Devices, their apps and processes, and the messages between the window and the device worker.
use vstd::prelude::*;

use crate::text::{outcome_view, outcome_views};

verus! {

// ---------------------------------------------------------------------------------------------
// What is known of a device
// ---------------------------------------------------------------------------------------------

/// A connected device.
#[derive(Debug)]
pub struct DeviceInfo {
    pub udid: String,
    pub name: String,
    pub product_version: String,
    pub connection: String,
}

/// What a `DeviceInfo` says.
pub ghost struct DeviceInfoView {
    pub udid: Seq<char>,
    pub name: Seq<char>,
    pub product_version: Seq<char>,
    pub connection: Seq<char>,
}

impl View for DeviceInfo {
    type V = DeviceInfoView;

    open spec fn view(&self) -> DeviceInfoView {
        DeviceInfoView {
            udid: self.udid@,
            name: self.name@,
            product_version: self.product_version@,
            connection: self.connection@,
        }
    }
}

impl Clone for DeviceInfo {
    fn clone(&self) -> (copy: Self)
        ensures
            copy == *self,
    {
        DeviceInfo {
            udid: self.udid.clone(),
            name: self.name.clone(),
            product_version: self.product_version.clone(),
            connection: self.connection.clone(),
        }
    }
}

impl Default for DeviceInfo {
    fn default() -> (info: Self)
        ensures
            info@ == (DeviceInfoView {
                udid: Seq::empty(),
                name: Seq::empty(),
                product_version: Seq::empty(),
                connection: Seq::empty(),
            }),
    {
        DeviceInfo {
            udid: String::new(),
            name: String::new(),
            product_version: String::new(),
            connection: String::new(),
        }
    }
}

/// An installed app.
#[derive(Debug)]
pub struct AppInfo {
    pub bundle_id: String,
    pub name: String,
}

/// What an `AppInfo` says.
pub ghost struct AppInfoView {
    pub bundle_id: Seq<char>,
    pub name: Seq<char>,
}

impl View for AppInfo {
    type V = AppInfoView;

    open spec fn view(&self) -> AppInfoView {
        AppInfoView { bundle_id: self.bundle_id@, name: self.name@ }
    }
}

impl Clone for AppInfo {
    fn clone(&self) -> (copy: Self)
        ensures
            copy == *self,
    {
        AppInfo { bundle_id: self.bundle_id.clone(), name: self.name.clone() }
    }
}

impl Default for AppInfo {
    fn default() -> (info: Self)
        ensures
            info@ == (AppInfoView { bundle_id: Seq::empty(), name: Seq::empty() }),
    {
        AppInfo { bundle_id: String::new(), name: String::new() }
    }
}

/// A running process.
#[derive(Debug)]
pub struct ProcessInfo {
    pub pid: u32,
    pub name: String,
}

/// What a `ProcessInfo` says.
pub ghost struct ProcessInfoView {
    pub pid: u32,
    pub name: Seq<char>,
}

impl View for ProcessInfo {
    type V = ProcessInfoView;

    open spec fn view(&self) -> ProcessInfoView {
        ProcessInfoView { pid: self.pid, name: self.name@ }
    }
}

impl Clone for ProcessInfo {
    fn clone(&self) -> (copy: Self)
        ensures
            copy == *self,
    {
        ProcessInfo { pid: self.pid, name: self.name.clone() }
    }
}

impl Default for ProcessInfo {
    fn default() -> (info: Self)
        ensures
            info@ == (ProcessInfoView { pid: 0, name: Seq::empty() }),
    {
        ProcessInfo { pid: 0, name: String::new() }
    }
}

/// How a check of a device went.
#[derive(Debug)]
pub enum CheckStatus {
    Success,
    Failed(String),
}

/// What a `CheckStatus` says.
pub ghost enum CheckStatusView {
    Success,
    Failed(Seq<char>),
}

impl View for CheckStatus {
    type V = CheckStatusView;

    open spec fn view(&self) -> CheckStatusView {
        match self {
            CheckStatus::Success => CheckStatusView::Success,
            CheckStatus::Failed(error) => CheckStatusView::Failed(error@),
        }
    }
}

impl Clone for CheckStatus {
    fn clone(&self) -> (copy: Self)
        ensures
            copy == *self,
    {
        match self {
            CheckStatus::Success => CheckStatus::Success,
            CheckStatus::Failed(error) => CheckStatus::Failed(error.clone()),
        }
    }
}

impl Default for CheckStatus {
    fn default() -> (status: Self)
        ensures
            status@ == CheckStatusView::Failed("Not checked yet"@),
    {
        CheckStatus::Failed("Not checked yet".to_owned())
    }
}

/// How the checks that a device needs to pass went.
#[derive(Debug)]
pub struct DeviceStatus {
    pub wireless_debugging: CheckStatus,
    pub developer_mode: CheckStatus,
    pub developer_disk_image: CheckStatus,
}

/// What a `DeviceStatus` says.
pub ghost struct DeviceStatusView {
    pub wireless_debugging: CheckStatusView,
    pub developer_mode: CheckStatusView,
    pub developer_disk_image: CheckStatusView,
}

impl View for DeviceStatus {
    type V = DeviceStatusView;

    open spec fn view(&self) -> DeviceStatusView {
        DeviceStatusView {
            wireless_debugging: self.wireless_debugging@,
            developer_mode: self.developer_mode@,
            developer_disk_image: self.developer_disk_image@,
        }
    }
}

impl Clone for DeviceStatus {
    fn clone(&self) -> (copy: Self)
        ensures
            copy == *self,
    {
        DeviceStatus {
            wireless_debugging: self.wireless_debugging.clone(),
            developer_mode: self.developer_mode.clone(),
            developer_disk_image: self.developer_disk_image.clone(),
        }
    }
}

impl Default for DeviceStatus {
    fn default() -> (status: Self)
        ensures
            status@ == (DeviceStatusView {
                wireless_debugging: CheckStatusView::Failed("Not checked yet"@),
                developer_mode: CheckStatusView::Failed("Not checked yet"@),
                developer_disk_image: CheckStatusView::Failed("Not checked yet"@),
            }),
    {
        DeviceStatus {
            wireless_debugging: CheckStatus::default(),
            developer_mode: CheckStatus::default(),
            developer_disk_image: CheckStatus::default(),
        }
    }
}

// ---------------------------------------------------------------------------------------------
// Messages
// ---------------------------------------------------------------------------------------------

/// What the window asks of the device worker.
#[derive(Debug)]
pub enum WorkerCommand {
    RefreshDevices,
    ListApps { udid: String },
    ListProcesses { udid: String },
    LaunchAndAttach { udid: String, bundle_id: String },
    LaunchAndAttachAndRunScript {
        udid: String,
        bundle_id: String,
        name: String,
        source: String,
    },
    Attach { udid: String, pid: u32 },
    AttachAndRun { udid: String, pid: u32, name: String, source: String },
    Stop,
}

/// What a `WorkerCommand` says.
pub ghost enum WorkerCommandView {
    RefreshDevices,
    ListApps { udid: Seq<char> },
    ListProcesses { udid: Seq<char> },
    LaunchAndAttach { udid: Seq<char>, bundle_id: Seq<char> },
    LaunchAndAttachAndRunScript {
        udid: Seq<char>,
        bundle_id: Seq<char>,
        name: Seq<char>,
        source: Seq<char>,
    },
    Attach { udid: Seq<char>, pid: u32 },
    AttachAndRun { udid: Seq<char>, pid: u32, name: Seq<char>, source: Seq<char> },
    Stop,
}

impl View for WorkerCommand {
    type V = WorkerCommandView;

    open spec fn view(&self) -> WorkerCommandView {
        match self {
            WorkerCommand::RefreshDevices => WorkerCommandView::RefreshDevices,
            WorkerCommand::ListApps { udid } => WorkerCommandView::ListApps { udid: udid@ },
            WorkerCommand::ListProcesses { udid } => WorkerCommandView::ListProcesses {
                udid: udid@,
            },
            WorkerCommand::LaunchAndAttach {
                udid,
                bundle_id,
            } => WorkerCommandView::LaunchAndAttach { udid: udid@, bundle_id: bundle_id@ },
            WorkerCommand::LaunchAndAttachAndRunScript {
                udid,
                bundle_id,
                name,
                source,
            } => WorkerCommandView::LaunchAndAttachAndRunScript {
                udid: udid@,
                bundle_id: bundle_id@,
                name: name@,
                source: source@,
            },
            WorkerCommand::Attach { udid, pid } => WorkerCommandView::Attach {
                udid: udid@,
                pid: *pid,
            },
            WorkerCommand::AttachAndRun {
                udid,
                pid,
                name,
                source,
            } => WorkerCommandView::AttachAndRun {
                udid: udid@,
                pid: *pid,
                name: name@,
                source: source@,
            },
            WorkerCommand::Stop => WorkerCommandView::Stop,
        }
    }
}

/// What the device worker tells the window.
#[derive(Debug)]
pub enum WorkerEvent {
    Busy(bool),
    Devices(Result<Vec<DeviceInfo>, String>),
    DeviceStatus(DeviceStatus),
    Apps(Result<Vec<AppInfo>, String>),
    Processes(Result<Vec<ProcessInfo>, String>),
    Launched(Result<u32, String>),
    Attached(Result<String, String>),
    DebugResponse(Result<String, String>),
    ScriptFinished(Result<(), String>),
    Log(String),
}

/// What a `WorkerEvent` says.
pub ghost enum WorkerEventView {
    Busy(bool),
    Devices(Result<Seq<DeviceInfoView>, Seq<char>>),
    DeviceStatus(DeviceStatusView),
    Apps(Result<Seq<AppInfoView>, Seq<char>>),
    Processes(Result<Seq<ProcessInfoView>, Seq<char>>),
    Launched(Result<u32, Seq<char>>),
    Attached(Result<Seq<char>, Seq<char>>),
    DebugResponse(Result<Seq<char>, Seq<char>>),
    ScriptFinished(Result<(), Seq<char>>),
    Log(Seq<char>),
}

impl View for WorkerEvent {
    type V = WorkerEventView;

    open spec fn view(&self) -> WorkerEventView {
        match *self {
            WorkerEvent::Busy(busy) => WorkerEventView::Busy(busy),
            WorkerEvent::Devices(result) => WorkerEventView::Devices(outcome_views(result)),
            WorkerEvent::DeviceStatus(status) => WorkerEventView::DeviceStatus(status@),
            WorkerEvent::Apps(result) => WorkerEventView::Apps(outcome_views(result)),
            WorkerEvent::Processes(result) => WorkerEventView::Processes(outcome_views(result)),
            WorkerEvent::Launched(result) => WorkerEventView::Launched(outcome_view(result)),
            WorkerEvent::Attached(result) => WorkerEventView::Attached(outcome_view(result)),
            WorkerEvent::DebugResponse(result) => WorkerEventView::DebugResponse(
                outcome_view(result),
            ),
            WorkerEvent::ScriptFinished(result) => WorkerEventView::ScriptFinished(
                outcome_view(result),
            ),
            WorkerEvent::Log(message) => WorkerEventView::Log(message@),
        }
    }
}

// ---------------------------------------------------------------------------------------------
// Checks
// ---------------------------------------------------------------------------------------------

/// The status for the outcome of a check that passes by being made.
pub open spec fn status_for<T>(result: Result<T, String>) -> CheckStatusView {
    match result {
        Ok(_) => CheckStatusView::Success,
        Err(error) => CheckStatusView::Failed(error@),
    }
}

/// Turns the outcome of a check that passes by being made into a status.
pub fn check_status<T>(result: Result<T, String>) -> (status: CheckStatus)
    ensures
        status@ == status_for(result),
{
    match result {
        Ok(_) => CheckStatus::Success,
        Err(error) => CheckStatus::Failed(error),
    }
}

/// The status for the answer to whether Developer Mode is on: only a device on which it is on has
/// passed.
pub open spec fn developer_mode_status(answer: Result<bool, String>) -> CheckStatusView {
    match answer {
        Ok(false) => CheckStatusView::Failed("Developer Mode is off"@),
        other => status_for(other),
    }
}

/// Turns the answer to whether Developer Mode is on into a status.
pub fn developer_mode_check(answer: Result<bool, String>) -> (status: CheckStatus)
    ensures
        status@ == developer_mode_status(answer),
{
    match answer {
        Ok(false) => CheckStatus::Failed("Developer Mode is off".to_owned()),
        other => check_status(other),
    }
}

/// The outcomes of the three checks of a device.
pub struct DeviceChecks {
    pub wireless_debugging: Result<bool, String>,
    /// Whether Developer Mode is on.
    pub developer_mode: Result<bool, String>,
    pub developer_disk_image: Result<bool, String>,
}

/// The status of a device, from the checks that were made, or from the error for which none could
/// be made: every check then failed with that error.
pub open spec fn inspected(checks: Result<DeviceChecks, String>) -> DeviceStatusView {
    match checks {
        Ok(made) => DeviceStatusView {
            wireless_debugging: status_for(made.wireless_debugging),
            developer_mode: developer_mode_status(made.developer_mode),
            developer_disk_image: status_for(made.developer_disk_image),
        },
        Err(error) => DeviceStatusView {
            wireless_debugging: CheckStatusView::Failed(error@),
            developer_mode: CheckStatusView::Failed(error@),
            developer_disk_image: CheckStatusView::Failed(error@),
        },
    }
}

/// The status of a device, from the checks that were made, or from the error for which none could
/// be made.
pub fn inspect_device_status(checks: Result<DeviceChecks, String>) -> (status: DeviceStatus)
    ensures
        status@ == inspected(checks),
{
    match checks {
        Ok(made) => DeviceStatus {
            wireless_debugging: check_status(made.wireless_debugging),
            developer_mode: developer_mode_check(made.developer_mode),
            developer_disk_image: check_status(made.developer_disk_image),
        },
        Err(error) => DeviceStatus {
            wireless_debugging: CheckStatus::Failed(error.clone()),
            developer_mode: CheckStatus::Failed(error.clone()),
            developer_disk_image: CheckStatus::Failed(error),
        },
    }
}

} // verus!
