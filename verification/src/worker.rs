//! The device worker: which work a command asks for, in which order, and what is reported of it.
//!
//! The worker does no work itself. It says what to do next and is told how that went.
use vstd::prelude::*;

use crate::device::{
    AppInfo, AppInfoView, DeviceInfo, DeviceInfoView, DeviceStatus, DeviceStatusView, ProcessInfo,
    ProcessInfoView, WorkerCommand, WorkerCommandView, WorkerEvent, WorkerEventView,
};
use crate::text::{
    concat2, hexadecimal, lemma_views_empty, lemma_views_push, outcome_view, outcome_views, views,
    write_hexadecimal,
};

verus! {

broadcast use {lemma_views_empty, lemma_views_push};

// ---------------------------------------------------------------------------------------------
// Vocabulary
// ---------------------------------------------------------------------------------------------

/// A script to run.
#[derive(Debug)]
pub struct Script {
    pub name: String,
    pub source: String,
}

/// What a `Script` says.
pub ghost struct ScriptView {
    pub name: Seq<char>,
    pub source: Seq<char>,
}

impl View for Script {
    type V = ScriptView;

    open spec fn view(&self) -> ScriptView {
        ScriptView { name: self.name@, source: self.source@ }
    }
}

/// What is to become of a session once the debugger is attached.
#[derive(Debug)]
pub enum Goal {
    /// Detach again at once.
    Detach,
    /// Keep the session.
    Keep,
    /// Keep the session and run a script in it; `launched` tells whether the process was launched
    /// for it.
    Run { launched: bool, script: Script },
}

/// What a `Goal` says.
pub ghost enum GoalView {
    Detach,
    Keep,
    Run { launched: bool, script: ScriptView },
}

impl View for Goal {
    type V = GoalView;

    open spec fn view(&self) -> GoalView {
        match self {
            Goal::Detach => GoalView::Detach,
            Goal::Keep => GoalView::Keep,
            Goal::Run { launched, script } => GoalView::Run {
                launched: *launched,
                script: script@,
            },
        }
    }
}

/// What the worker waits for.
#[derive(Debug)]
pub enum Phase {
    Idle,
    Refreshing,
    Inspecting { udid: String },
    ListingApps { udid: String },
    ListingProcesses,
    Launching { udid: String, goal: Goal },
    Connecting { pid: u32, goal: Goal },
    Attaching { pid: u32, goal: Goal },
    Detaching { pid: u32, response: String },
    Stopping,
}

/// What a `Phase` says.
pub ghost enum PhaseView {
    Idle,
    Refreshing,
    Inspecting { udid: Seq<char> },
    ListingApps { udid: Seq<char> },
    ListingProcesses,
    Launching { udid: Seq<char>, goal: GoalView },
    Connecting { pid: u32, goal: GoalView },
    Attaching { pid: u32, goal: GoalView },
    Detaching { pid: u32, response: Seq<char> },
    Stopping,
}

impl View for Phase {
    type V = PhaseView;

    open spec fn view(&self) -> PhaseView {
        match self {
            Phase::Idle => PhaseView::Idle,
            Phase::Refreshing => PhaseView::Refreshing,
            Phase::Inspecting { udid } => PhaseView::Inspecting { udid: udid@ },
            Phase::ListingApps { udid } => PhaseView::ListingApps { udid: udid@ },
            Phase::ListingProcesses => PhaseView::ListingProcesses,
            Phase::Launching { udid, goal } => PhaseView::Launching { udid: udid@, goal: goal@ },
            Phase::Connecting { pid, goal } => PhaseView::Connecting { pid: *pid, goal: goal@ },
            Phase::Attaching { pid, goal } => PhaseView::Attaching { pid: *pid, goal: goal@ },
            Phase::Detaching { pid, response } => PhaseView::Detaching {
                pid: *pid,
                response: response@,
            },
            Phase::Stopping => PhaseView::Stopping,
        }
    }
}

/// The work to do next.
#[derive(Debug)]
pub enum WorkerAction {
    RefreshDevices,
    InspectDevice { udid: String },
    ListApps { udid: String },
    ListProcesses { udid: String },
    LaunchApp { udid: String, bundle_id: String, start_suspended: bool },
    /// Open a debug session for a process.
    AttachDebugger { udid: String, pid: u32 },
    /// Send a command in the session that was opened last.
    SendToNewSession { command: String },
    /// Send a command in the session that was released last.
    SendToReleasedSession { command: String },
    /// The command is done.
    Finish,
}

/// What a `WorkerAction` says.
pub ghost enum WorkerActionView {
    RefreshDevices,
    InspectDevice { udid: Seq<char> },
    ListApps { udid: Seq<char> },
    ListProcesses { udid: Seq<char> },
    LaunchApp { udid: Seq<char>, bundle_id: Seq<char>, start_suspended: bool },
    AttachDebugger { udid: Seq<char>, pid: u32 },
    SendToNewSession { command: Seq<char> },
    SendToReleasedSession { command: Seq<char> },
    Finish,
}

impl View for WorkerAction {
    type V = WorkerActionView;

    open spec fn view(&self) -> WorkerActionView {
        match self {
            WorkerAction::RefreshDevices => WorkerActionView::RefreshDevices,
            WorkerAction::InspectDevice { udid } => WorkerActionView::InspectDevice {
                udid: udid@,
            },
            WorkerAction::ListApps { udid } => WorkerActionView::ListApps { udid: udid@ },
            WorkerAction::ListProcesses { udid } => WorkerActionView::ListProcesses {
                udid: udid@,
            },
            WorkerAction::LaunchApp {
                udid,
                bundle_id,
                start_suspended,
            } => WorkerActionView::LaunchApp {
                udid: udid@,
                bundle_id: bundle_id@,
                start_suspended: *start_suspended,
            },
            WorkerAction::AttachDebugger { udid, pid } => WorkerActionView::AttachDebugger {
                udid: udid@,
                pid: *pid,
            },
            WorkerAction::SendToNewSession { command } => WorkerActionView::SendToNewSession {
                command: command@,
            },
            WorkerAction::SendToReleasedSession {
                command,
            } => WorkerActionView::SendToReleasedSession { command: command@ },
            WorkerAction::Finish => WorkerActionView::Finish,
        }
    }
}

/// What happens on the way, in order, before the next work.
#[derive(Debug)]
pub enum WorkerEffect {
    /// Tell the window.
    Emit(WorkerEvent),
    /// The session that was opened last takes the place of the active one.
    KeepSession,
    /// Run a script in the active session.
    StartScript { pid: u32, script: Script },
    /// The active session is no longer active, and its script is told to stop.
    ReleaseSession,
}

/// What a `WorkerEffect` says.
pub ghost enum WorkerEffectView {
    Emit(WorkerEventView),
    KeepSession,
    StartScript { pid: u32, script: ScriptView },
    ReleaseSession,
}

impl View for WorkerEffect {
    type V = WorkerEffectView;

    open spec fn view(&self) -> WorkerEffectView {
        match self {
            WorkerEffect::Emit(event) => WorkerEffectView::Emit(event@),
            WorkerEffect::KeepSession => WorkerEffectView::KeepSession,
            WorkerEffect::StartScript { pid, script } => WorkerEffectView::StartScript {
                pid: *pid,
                script: script@,
            },
            WorkerEffect::ReleaseSession => WorkerEffectView::ReleaseSession,
        }
    }
}

/// How the work went.
#[derive(Debug)]
pub enum WorkerReply {
    Devices(Result<Vec<DeviceInfo>, String>),
    Status(DeviceStatus),
    Apps(Result<Vec<AppInfo>, String>),
    Processes(Result<Vec<ProcessInfo>, String>),
    /// The process number of a launched app.
    Launched(Result<u32, String>),
    /// Whether a debug session was opened.
    Connected(Result<(), String>),
    /// The answer to a debug command.
    Response(Result<String, String>),
}

/// What a `WorkerReply` says.
pub ghost enum WorkerReplyView {
    Devices(Result<Seq<DeviceInfoView>, Seq<char>>),
    Status(DeviceStatusView),
    Apps(Result<Seq<AppInfoView>, Seq<char>>),
    Processes(Result<Seq<ProcessInfoView>, Seq<char>>),
    Launched(Result<u32, Seq<char>>),
    Connected(Result<(), Seq<char>>),
    Response(Result<Seq<char>, Seq<char>>),
}

impl View for WorkerReply {
    type V = WorkerReplyView;

    open spec fn view(&self) -> WorkerReplyView {
        match *self {
            WorkerReply::Devices(result) => WorkerReplyView::Devices(outcome_views(result)),
            WorkerReply::Status(status) => WorkerReplyView::Status(status@),
            WorkerReply::Apps(result) => WorkerReplyView::Apps(outcome_views(result)),
            WorkerReply::Processes(result) => WorkerReplyView::Processes(outcome_views(result)),
            WorkerReply::Launched(result) => WorkerReplyView::Launched(outcome_view(result)),
            WorkerReply::Connected(result) => WorkerReplyView::Connected(outcome_view(result)),
            WorkerReply::Response(result) => WorkerReplyView::Response(outcome_view(result)),
        }
    }
}

/// What follows a command or a reply.
pub struct WorkerStep {
    pub effects: Vec<WorkerEffect>,
    pub action: WorkerAction,
}

/// The worker's memory.
pub struct DeviceWorker {
    /// The process of the active debug session.
    pub active_debug: Option<u32>,
    pub phase: Phase,
}

/// What a `DeviceWorker` remembers.
pub ghost struct DeviceWorkerView {
    pub active_debug: Option<u32>,
    pub phase: PhaseView,
}

impl View for DeviceWorker {
    type V = DeviceWorkerView;

    open spec fn view(&self) -> DeviceWorkerView {
        DeviceWorkerView { active_debug: self.active_debug, phase: self.phase@ }
    }
}

// ---------------------------------------------------------------------------------------------
// The rules
// ---------------------------------------------------------------------------------------------

/// A step of the worker: its memory afterwards, what happens on the way, and the next work.
pub ghost struct StepView {
    pub worker: DeviceWorkerView,
    pub effects: Seq<WorkerEffectView>,
    pub action: WorkerActionView,
}

/// Telling the window.
pub open spec fn emit(event: WorkerEventView) -> WorkerEffectView {
    WorkerEffectView::Emit(event)
}

/// The debugserver command that attaches to a process.
pub open spec fn attach_text(pid: u32) -> Seq<char> {
    "vAttach;"@ + hexadecimal(pid as nat)
}

/// The end of a command: after the last effect the worker is no longer busy.
pub open spec fn finish(active_debug: Option<u32>, effects: Seq<WorkerEffectView>) -> StepView {
    StepView {
        worker: DeviceWorkerView { active_debug, phase: PhaseView::Idle },
        effects: effects.push(emit(WorkerEventView::Busy(false))),
        action: WorkerActionView::Finish,
    }
}

/// More work for a command.
pub open spec fn proceed(
    active_debug: Option<u32>,
    phase: PhaseView,
    effects: Seq<WorkerEffectView>,
    action: WorkerActionView,
) -> StepView {
    StepView { worker: DeviceWorkerView { active_debug, phase }, effects, action }
}

/// The end of a command that could not attach.
pub open spec fn attach_failed(active_debug: Option<u32>, error: Seq<char>) -> StepView {
    finish(active_debug, seq![emit(WorkerEventView::Attached(Err(error)))])
}

/// The first step of a command. The worker is busy from here on.
pub open spec fn begin_step(worker: DeviceWorkerView, command: WorkerCommandView) -> StepView {
    let active = worker.active_debug;
    let busy = seq![emit(WorkerEventView::Busy(true))];
    match command {
        WorkerCommandView::RefreshDevices => proceed(
            active,
            PhaseView::Refreshing,
            busy,
            WorkerActionView::RefreshDevices,
        ),
        WorkerCommandView::ListApps { udid } => proceed(
            active,
            PhaseView::Inspecting { udid },
            busy,
            WorkerActionView::InspectDevice { udid },
        ),
        WorkerCommandView::ListProcesses { udid } => proceed(
            active,
            PhaseView::ListingProcesses,
            busy,
            WorkerActionView::ListProcesses { udid },
        ),
        WorkerCommandView::LaunchAndAttach { udid, bundle_id } => proceed(
            active,
            PhaseView::Launching { udid, goal: GoalView::Detach },
            busy,
            WorkerActionView::LaunchApp { udid, bundle_id, start_suspended: true },
        ),
        WorkerCommandView::LaunchAndAttachAndRunScript { udid, bundle_id, name, source } => proceed(
            active,
            PhaseView::Launching {
                udid,
                goal: GoalView::Run { launched: true, script: ScriptView { name, source } },
            },
            busy,
            WorkerActionView::LaunchApp { udid, bundle_id, start_suspended: true },
        ),
        WorkerCommandView::Attach { udid, pid } => proceed(
            active,
            PhaseView::Connecting { pid, goal: GoalView::Keep },
            busy,
            WorkerActionView::AttachDebugger { udid, pid },
        ),
        WorkerCommandView::AttachAndRun { udid, pid, name, source } => proceed(
            active,
            PhaseView::Connecting {
                pid,
                goal: GoalView::Run { launched: false, script: ScriptView { name, source } },
            },
            busy,
            WorkerActionView::AttachDebugger { udid, pid },
        ),
        WorkerCommandView::Stop => match active {
            Some(_) => proceed(
                None,
                PhaseView::Stopping,
                busy.push(WorkerEffectView::ReleaseSession),
                WorkerActionView::SendToReleasedSession { command: "D"@ },
            ),
            None => finish(
                None,
                busy.push(
                    emit(
                        WorkerEventView::DebugResponse(
                            Ok("Stopped. No active debug session remained."@),
                        ),
                    ),
                ),
            ),
        },
    }
}

/// The reply is one that the worker waits for.
pub open spec fn awaits(phase: PhaseView, reply: WorkerReplyView) -> bool {
    match phase {
        PhaseView::Idle => false,
        PhaseView::Refreshing => reply is Devices,
        PhaseView::Inspecting { .. } => reply is Status,
        PhaseView::ListingApps { .. } => reply is Apps,
        PhaseView::ListingProcesses => reply is Processes,
        PhaseView::Launching { .. } => reply is Launched,
        PhaseView::Connecting { .. } => reply is Connected,
        PhaseView::Attaching { .. } => reply is Response,
        PhaseView::Detaching { .. } => reply is Response,
        PhaseView::Stopping => reply is Response,
    }
}

/// The step after the debugger answered the attach command.
pub open spec fn attached_step(
    active: Option<u32>,
    pid: u32,
    goal: GoalView,
    response: Seq<char>,
) -> StepView {
    match goal {
        GoalView::Detach => proceed(
            active,
            PhaseView::Detaching { pid, response },
            Seq::empty(),
            WorkerActionView::SendToNewSession { command: "D"@ },
        ),
        GoalView::Keep => finish(
            Some(pid),
            seq![WorkerEffectView::KeepSession, emit(WorkerEventView::Attached(Ok(response)))],
        ),
        GoalView::Run { launched, script } => {
            let start = if launched {
                seq![emit(WorkerEventView::Launched(Ok(pid)))]
            } else {
                Seq::empty()
            };
            finish(
                Some(pid),
                start.push(emit(WorkerEventView::Attached(Ok(response)))).push(
                    WorkerEffectView::KeepSession,
                ).push(WorkerEffectView::StartScript { pid, script }),
            )
        },
    }
}

/// The step after a stopped session's debugserver answered: stopping never fails.
pub open spec fn stopped_step(
    active: Option<u32>,
    response: Result<Seq<char>, Seq<char>>,
) -> StepView {
    match response {
        Ok(text) => finish(
            active,
            seq![
                emit(
                    WorkerEventView::DebugResponse(
                        Ok(
                            if text.len() == 0 {
                                "Stopped script and detached debugger."@
                            } else {
                                text
                            },
                        ),
                    ),
                ),
            ],
        ),
        Err(error) => finish(
            active,
            seq![
                emit(
                    WorkerEventView::Log(
                        "Stop detached local session after debugserver error: "@ + error,
                    ),
                ),
                emit(
                    WorkerEventView::DebugResponse(
                        Ok("Stopped script and cleared debug session."@),
                    ),
                ),
            ],
        ),
    }
}

/// The step after a reply that the worker waits for.
pub open spec fn resume_step(worker: DeviceWorkerView, reply: WorkerReplyView) -> StepView {
    let active = worker.active_debug;
    match (worker.phase, reply) {
        (PhaseView::Refreshing, WorkerReplyView::Devices(result)) => finish(
            active,
            seq![emit(WorkerEventView::Devices(result))],
        ),
        (PhaseView::Inspecting { udid }, WorkerReplyView::Status(status)) => proceed(
            active,
            PhaseView::ListingApps { udid },
            seq![emit(WorkerEventView::DeviceStatus(status))],
            WorkerActionView::ListApps { udid },
        ),
        (PhaseView::ListingApps { udid }, WorkerReplyView::Apps(result)) => proceed(
            active,
            PhaseView::ListingProcesses,
            seq![emit(WorkerEventView::Apps(result))],
            WorkerActionView::ListProcesses { udid },
        ),
        (PhaseView::ListingProcesses, WorkerReplyView::Processes(result)) => finish(
            active,
            seq![emit(WorkerEventView::Processes(result))],
        ),
        (PhaseView::Launching { udid, goal }, WorkerReplyView::Launched(result)) => match result {
            Ok(pid) => proceed(
                active,
                PhaseView::Connecting { pid, goal },
                Seq::empty(),
                WorkerActionView::AttachDebugger { udid, pid },
            ),
            Err(error) => attach_failed(active, error),
        },
        (PhaseView::Connecting { pid, goal }, WorkerReplyView::Connected(result)) => match result {
            Ok(_) => proceed(
                active,
                PhaseView::Attaching { pid, goal },
                Seq::empty(),
                WorkerActionView::SendToNewSession { command: attach_text(pid) },
            ),
            Err(error) => attach_failed(active, error),
        },
        (PhaseView::Attaching { pid, goal }, WorkerReplyView::Response(result)) => match result {
            Ok(response) => attached_step(active, pid, goal, response),
            Err(error) => attach_failed(active, error),
        },
        (PhaseView::Detaching { pid, response }, WorkerReplyView::Response(
            result,
        )) => match result {
            Ok(detached) => finish(
                active,
                seq![
                    emit(WorkerEventView::Launched(Ok(pid))),
                    emit(WorkerEventView::Attached(Ok(response))),
                    emit(WorkerEventView::DebugResponse(Ok(detached))),
                ],
            ),
            Err(error) => attach_failed(active, error),
        },
        (PhaseView::Stopping, WorkerReplyView::Response(result)) => stopped_step(active, result),
        (_, _) => finish(active, Seq::empty()),
    }
}

// ---------------------------------------------------------------------------------------------
// The worker
// ---------------------------------------------------------------------------------------------

/// The debugserver command that attaches to a process.
pub fn attach_command(pid: u32) -> (command: String)
    ensures
        command@ == attach_text(pid),
{
    let number = write_hexadecimal(pid as u64);
    concat2("vAttach;", number.as_str())
}

/// One thing to do to make a new debug session stop acknowledging every packet.
#[derive(Debug)]
pub enum NoAckStep {
    /// Send an acknowledgement.
    SendAck,
    /// Send a command and wait for its answer.
    SendCommand { command: String },
    /// From here on neither send acknowledgements nor wait for them.
    LeaveAckMode,
}

/// What a `NoAckStep` says.
pub ghost enum NoAckStepView {
    SendAck,
    SendCommand { command: Seq<char> },
    LeaveAckMode,
}

impl View for NoAckStep {
    type V = NoAckStepView;

    open spec fn view(&self) -> NoAckStepView {
        match self {
            NoAckStep::SendAck => NoAckStepView::SendAck,
            NoAckStep::SendCommand { command } => NoAckStepView::SendCommand { command: command@ },
            NoAckStep::LeaveAckMode => NoAckStepView::LeaveAckMode,
        }
    }
}

/// How a new debug session stops acknowledging every packet: it is primed with two
/// acknowledgements before debugserver is asked, and they end once it has agreed.
pub fn configure_no_ack_mode() -> (steps: Vec<NoAckStep>)
    ensures
        views(steps@) == seq![
            NoAckStepView::SendAck,
            NoAckStepView::SendAck,
            NoAckStepView::SendCommand { command: "QStartNoAckMode"@ },
            NoAckStepView::LeaveAckMode,
        ],
{
    let mut steps: Vec<NoAckStep> = Vec::new();
    steps.push(NoAckStep::SendAck);
    steps.push(NoAckStep::SendAck);
    steps.push(NoAckStep::SendCommand { command: "QStartNoAckMode".to_owned() });
    steps.push(NoAckStep::LeaveAckMode);
    assert(views(steps@) =~= seq![
        NoAckStepView::SendAck,
        NoAckStepView::SendAck,
        NoAckStepView::SendCommand { command: "QStartNoAckMode"@ },
        NoAckStepView::LeaveAckMode,
    ]);
    steps
}

impl DeviceWorker {
    /// A worker without a debug session.
    pub fn new() -> (worker: Self)
        ensures
            worker@ == (DeviceWorkerView { active_debug: None, phase: PhaseView::Idle }),
    {
        DeviceWorker { active_debug: None, phase: Phase::Idle }
    }

    /// Takes up a command.
    pub fn begin(&mut self, command: WorkerCommand) -> (step: WorkerStep)
        ensures
            ({
                let expected = begin_step(old(self)@, command@);
                &&& final(self)@ == expected.worker
                &&& views(step.effects@) == expected.effects
                &&& step.action@ == expected.action
            }),
    {
        let ghost expected = begin_step(self@, command@);
        let mut effects: Vec<WorkerEffect> = Vec::new();
        effects.push(WorkerEffect::Emit(WorkerEvent::Busy(true)));
        assert(views(effects@) =~= seq![emit(WorkerEventView::Busy(true))]);
        let action = match command {
            WorkerCommand::RefreshDevices => {
                self.phase = Phase::Refreshing;
                WorkerAction::RefreshDevices
            },
            WorkerCommand::ListApps { udid } => {
                self.phase = Phase::Inspecting { udid: udid.clone() };
                WorkerAction::InspectDevice { udid }
            },
            WorkerCommand::ListProcesses { udid } => {
                self.phase = Phase::ListingProcesses;
                WorkerAction::ListProcesses { udid }
            },
            WorkerCommand::LaunchAndAttach { udid, bundle_id } => {
                self.phase = Phase::Launching { udid: udid.clone(), goal: Goal::Detach };
                WorkerAction::LaunchApp { udid, bundle_id, start_suspended: true }
            },
            WorkerCommand::LaunchAndAttachAndRunScript { udid, bundle_id, name, source } => {
                let goal = Goal::Run { launched: true, script: Script { name, source } };
                self.phase = Phase::Launching { udid: udid.clone(), goal };
                WorkerAction::LaunchApp { udid, bundle_id, start_suspended: true }
            },
            WorkerCommand::Attach { udid, pid } => {
                self.phase = Phase::Connecting { pid, goal: Goal::Keep };
                WorkerAction::AttachDebugger { udid, pid }
            },
            WorkerCommand::AttachAndRun { udid, pid, name, source } => {
                let goal = Goal::Run { launched: false, script: Script { name, source } };
                self.phase = Phase::Connecting { pid, goal };
                WorkerAction::AttachDebugger { udid, pid }
            },
            WorkerCommand::Stop => match self.active_debug {
                Some(_) => {
                    self.active_debug = None;
                    self.phase = Phase::Stopping;
                    effects.push(WorkerEffect::ReleaseSession);
                    WorkerAction::SendToReleasedSession { command: "D".to_owned() }
                },
                None => {
                    self.phase = Phase::Idle;
                    let text = "Stopped. No active debug session remained.".to_owned();
                    effects.push(WorkerEffect::Emit(WorkerEvent::DebugResponse(Ok(text))));
                    effects.push(WorkerEffect::Emit(WorkerEvent::Busy(false)));
                    WorkerAction::Finish
                },
            },
        };
        WorkerStep { effects, action }
    }

    /// Whether the worker waits for a reply of this kind.
    pub fn accepts(&self, reply: &WorkerReply) -> (yes: bool)
        ensures
            yes == awaits(self@.phase, reply@),
    {
        match (&self.phase, reply) {
            (Phase::Refreshing, WorkerReply::Devices(_)) => true,
            (Phase::Inspecting { .. }, WorkerReply::Status(_)) => true,
            (Phase::ListingApps { .. }, WorkerReply::Apps(_)) => true,
            (Phase::ListingProcesses, WorkerReply::Processes(_)) => true,
            (Phase::Launching { .. }, WorkerReply::Launched(_)) => true,
            (Phase::Connecting { .. }, WorkerReply::Connected(_)) => true,
            (Phase::Attaching { .. }, WorkerReply::Response(_)) => true,
            (Phase::Detaching { .. }, WorkerReply::Response(_)) => true,
            (Phase::Stopping, WorkerReply::Response(_)) => true,
            _ => false,
        }
    }

    /// Goes on after a reply that the worker waits for.
    pub fn resume(&mut self, reply: WorkerReply) -> (step: WorkerStep)
        requires
            awaits(old(self)@.phase, reply@),
        ensures
            ({
                let expected = resume_step(old(self)@, reply@);
                &&& final(self)@ == expected.worker
                &&& views(step.effects@) == expected.effects
                &&& step.action@ == expected.action
            }),
    {
        let ghost expected = resume_step(self@, reply@);
        let mut phase = Phase::Idle;
        std::mem::swap(&mut phase, &mut self.phase);
        let mut effects: Vec<WorkerEffect> = Vec::new();
        let mut action = WorkerAction::Finish;
        match (phase, reply) {
            (Phase::Refreshing, WorkerReply::Devices(result)) => {
                effects.push(WorkerEffect::Emit(WorkerEvent::Devices(result)));
                assert(views(effects@) =~= expected.effects.drop_last());
            },
            (Phase::Inspecting { udid }, WorkerReply::Status(status)) => {
                effects.push(WorkerEffect::Emit(WorkerEvent::DeviceStatus(status)));
                self.phase = Phase::ListingApps { udid: udid.clone() };
                action = WorkerAction::ListApps { udid };
                assert(views(effects@) =~= expected.effects);
            },
            (Phase::ListingApps { udid }, WorkerReply::Apps(result)) => {
                effects.push(WorkerEffect::Emit(WorkerEvent::Apps(result)));
                self.phase = Phase::ListingProcesses;
                action = WorkerAction::ListProcesses { udid };
                assert(views(effects@) =~= expected.effects);
            },
            (Phase::ListingProcesses, WorkerReply::Processes(result)) => {
                effects.push(WorkerEffect::Emit(WorkerEvent::Processes(result)));
                assert(views(effects@) =~= expected.effects.drop_last());
            },
            (Phase::Launching { udid, goal }, WorkerReply::Launched(result)) => match result {
                Ok(pid) => {
                    self.phase = Phase::Connecting { pid, goal };
                    action = WorkerAction::AttachDebugger { udid, pid };
                },
                Err(error) => {
                    effects.push(WorkerEffect::Emit(WorkerEvent::Attached(Err(error))));
                    assert(views(effects@) =~= expected.effects.drop_last());
                },
            },
            (Phase::Connecting { pid, goal }, WorkerReply::Connected(result)) => match result {
                Ok(_) => {
                    self.phase = Phase::Attaching { pid, goal };
                    action = WorkerAction::SendToNewSession { command: attach_command(pid) };
                },
                Err(error) => {
                    effects.push(WorkerEffect::Emit(WorkerEvent::Attached(Err(error))));
                    assert(views(effects@) =~= expected.effects.drop_last());
                },
            },
            (Phase::Attaching { pid, goal }, WorkerReply::Response(result)) => match result {
                Ok(response) => match goal {
                    Goal::Detach => {
                        self.phase = Phase::Detaching { pid, response };
                        action = WorkerAction::SendToNewSession { command: "D".to_owned() };
                    },
                    Goal::Keep => {
                        self.active_debug = Some(pid);
                        effects.push(WorkerEffect::KeepSession);
                        effects.push(WorkerEffect::Emit(WorkerEvent::Attached(Ok(response))));
                        assert(views(effects@) =~= expected.effects.drop_last());
                    },
                    Goal::Run { launched, script } => {
                        self.active_debug = Some(pid);
                        if launched {
                            effects.push(WorkerEffect::Emit(WorkerEvent::Launched(Ok(pid))));
                        }
                        effects.push(WorkerEffect::Emit(WorkerEvent::Attached(Ok(response))));
                        effects.push(WorkerEffect::KeepSession);
                        effects.push(WorkerEffect::StartScript { pid, script });
                        assert(views(effects@) =~= expected.effects.drop_last());
                    },
                },
                Err(error) => {
                    effects.push(WorkerEffect::Emit(WorkerEvent::Attached(Err(error))));
                    assert(views(effects@) =~= expected.effects.drop_last());
                },
            },
            (Phase::Detaching { pid, response }, WorkerReply::Response(result)) => match result {
                Ok(detached) => {
                    effects.push(WorkerEffect::Emit(WorkerEvent::Launched(Ok(pid))));
                    effects.push(WorkerEffect::Emit(WorkerEvent::Attached(Ok(response))));
                    effects.push(WorkerEffect::Emit(WorkerEvent::DebugResponse(Ok(detached))));
                    assert(views(effects@) =~= expected.effects.drop_last());
                },
                Err(error) => {
                    effects.push(WorkerEffect::Emit(WorkerEvent::Attached(Err(error))));
                    assert(views(effects@) =~= expected.effects.drop_last());
                },
            },
            (Phase::Stopping, WorkerReply::Response(result)) => {
                let text = match result {
                    Ok(response) => if response.as_str().is_empty() {
                        "Stopped script and detached debugger.".to_owned()
                    } else {
                        response
                    },
                    Err(error) => {
                        let line = concat2(
                            "Stop detached local session after debugserver error: ",
                            error.as_str(),
                        );
                        effects.push(WorkerEffect::Emit(WorkerEvent::Log(line)));
                        "Stopped script and cleared debug session.".to_owned()
                    },
                };
                effects.push(WorkerEffect::Emit(WorkerEvent::DebugResponse(Ok(text))));
                assert(views(effects@) =~= expected.effects.drop_last());
            },
            _ => {},
        }
        if let WorkerAction::Finish = action {
            effects.push(WorkerEffect::Emit(WorkerEvent::Busy(false)));
            assert(views(effects@) =~= expected.effects);
        }
        WorkerStep { effects, action }
    }
}

// ---------------------------------------------------------------------------------------------
// What holds of every command
// ---------------------------------------------------------------------------------------------

/// How many replies at most are still to come.
pub open spec fn replies_left(phase: PhaseView) -> nat {
    match phase {
        PhaseView::Idle => 0,
        PhaseView::Refreshing => 1,
        PhaseView::Inspecting { .. } => 3,
        PhaseView::ListingApps { .. } => 2,
        PhaseView::ListingProcesses => 1,
        PhaseView::Launching { .. } => 4,
        PhaseView::Connecting { .. } => 3,
        PhaseView::Attaching { .. } => 2,
        PhaseView::Detaching { .. } => 1,
        PhaseView::Stopping => 1,
    }
}

/// Every reply brings a command closer to its end, so that it ends after four replies at most. It
/// is at its end exactly when nothing is left to do.
pub proof fn law_commands_come_to_an_end(
    worker: DeviceWorkerView,
    command: WorkerCommandView,
    reply: WorkerReplyView,
)
    ensures
        replies_left(begin_step(worker, command).worker.phase) <= 4,
        begin_step(worker, command).action is Finish <==> begin_step(
            worker,
            command,
        ).worker.phase is Idle,
        awaits(worker.phase, reply) ==> replies_left(resume_step(worker, reply).worker.phase)
            < replies_left(worker.phase),
        awaits(worker.phase, reply) ==> (resume_step(worker, reply).action is Finish
            <==> resume_step(worker, reply).worker.phase is Idle),
{
}

/// The memory of the worker and all that happened, once `replies` have come in one by one.
pub open spec fn follow(
    worker: DeviceWorkerView,
    effects: Seq<WorkerEffectView>,
    replies: Seq<WorkerReplyView>,
) -> (DeviceWorkerView, Seq<WorkerEffectView>)
    decreases replies.len(),
{
    if replies.len() == 0 || !awaits(worker.phase, replies[0]) {
        (worker, effects)
    } else {
        let step = resume_step(worker, replies[0]);
        follow(step.worker, effects + step.effects, replies.drop_first())
    }
}

/// The effect tells the window whether the worker is busy.
pub open spec fn tells_busy(effect: WorkerEffectView) -> bool {
    effect matches WorkerEffectView::Emit(event) && event is Busy
}

/// The worker says first that it is busy, and says nothing more of it until it says last that it no
/// longer is, once the command has ended.
pub open spec fn busy_from_start_to_end(phase: PhaseView, effects: Seq<WorkerEffectView>) -> bool {
    &&& effects.len() > 0
    &&& effects[0] == emit(WorkerEventView::Busy(true))
    &&& forall|i: int|
        0 < i < effects.len() ==> (#[trigger] tells_busy(effects[i]) <==> phase is Idle && i
            == effects.len() - 1)
    &&& phase is Idle ==> effects.len() > 1 && effects.last() == emit(WorkerEventView::Busy(false))
}

proof fn lemma_busy_step(
    worker: DeviceWorkerView,
    effects: Seq<WorkerEffectView>,
    reply: WorkerReplyView,
)
    requires
        awaits(worker.phase, reply),
        busy_from_start_to_end(worker.phase, effects),
    ensures
        busy_from_start_to_end(
            resume_step(worker, reply).worker.phase,
            effects + resume_step(worker, reply).effects,
        ),
{
    let step = resume_step(worker, reply);
    let all = effects + step.effects;
    assert forall|i: int| 0 < i < all.len() implies (#[trigger] tells_busy(all[i])
        <==> step.worker.phase is Idle && i == all.len() - 1) by {
        if i < effects.len() {
            assert(all[i] == effects[i]);
            assert(!tells_busy(effects[i]));
        } else {
            assert(all[i] == step.effects[i - effects.len()]);
        }
    }
}

proof fn lemma_busy_follow(
    worker: DeviceWorkerView,
    effects: Seq<WorkerEffectView>,
    replies: Seq<WorkerReplyView>,
)
    requires
        busy_from_start_to_end(worker.phase, effects),
    ensures
        ({
            let (after, all) = follow(worker, effects, replies);
            busy_from_start_to_end(after.phase, all)
        }),
    decreases replies.len(),
{
    if replies.len() > 0 && awaits(worker.phase, replies[0]) {
        let step = resume_step(worker, replies[0]);
        lemma_busy_step(worker, effects, replies[0]);
        lemma_busy_follow(step.worker, effects + step.effects, replies.drop_first());
    }
}

/// Whatever the command and whatever the replies, the window hears first that the worker is busy
/// and, when the command has ended, last that it no longer is.
pub proof fn law_worker_is_busy_from_start_to_end(
    worker: DeviceWorkerView,
    command: WorkerCommandView,
    replies: Seq<WorkerReplyView>,
)
    ensures
        ({
            let first = begin_step(worker, command);
            let (after, all) = follow(first.worker, first.effects, replies);
            busy_from_start_to_end(after.phase, all)
        }),
{
    let first = begin_step(worker, command);
    lemma_busy_follow(first.worker, first.effects, replies);
}

/// The active session changes in two ways only: a newly opened one is kept, or the active one is
/// released.
pub proof fn law_active_session_changes(
    worker: DeviceWorkerView,
    command: WorkerCommandView,
    reply: WorkerReplyView,
)
    ensures
        begin_step(worker, command).effects.contains(WorkerEffectView::ReleaseSession)
            <==> command is Stop && worker.active_debug is Some,
        begin_step(worker, command).worker.active_debug == (if command is Stop {
            None
        } else {
            worker.active_debug
        }),
        awaits(worker.phase, reply) ==> ({
            let step = resume_step(worker, reply);
            &&& !step.effects.contains(WorkerEffectView::ReleaseSession)
            &&& if step.effects.contains(WorkerEffectView::KeepSession) {
                &&& worker.phase matches PhaseView::Attaching { pid, .. }
                    && step.worker.active_debug == Some(pid)
            } else {
                step.worker.active_debug == worker.active_debug
            }
        }),
{
    let first = begin_step(worker, command);
    if command is Stop && worker.active_debug is Some {
        assert(first.effects[1] == WorkerEffectView::ReleaseSession);
    }
    if awaits(worker.phase, reply) {
        let step = resume_step(worker, reply);
        if let PhaseView::Attaching { pid, goal } = worker.phase {
            if let WorkerReplyView::Response(Ok(response)) = reply {
                match goal {
                    GoalView::Detach => {},
                    GoalView::Keep => {
                        assert(step.effects[0] == WorkerEffectView::KeepSession);
                    },
                    GoalView::Run { launched, script } => {
                        assert(step.effects[if launched {
                            2
                        } else {
                            1
                        }] == WorkerEffectView::KeepSession);
                    },
                }
            }
        }
    }
}

/// Launching or attaching that fails at any point is reported as a failed attachment with the
/// error, and leaves the active session as it was.
pub proof fn law_failed_attachment_is_reported(
    worker: DeviceWorkerView,
    reply: WorkerReplyView,
    error: Seq<char>,
)
    requires
        awaits(worker.phase, reply),
        !(worker.phase is Stopping),
        reply == WorkerReplyView::Launched(Err(error)) || reply == WorkerReplyView::Connected(
            Err(error),
        ) || reply == WorkerReplyView::Response(Err(error)),
    ensures
        resume_step(worker, reply).worker.active_debug == worker.active_debug,
        resume_step(worker, reply).effects == seq![
            emit(WorkerEventView::Attached(Err(error))),
            emit(WorkerEventView::Busy(false)),
        ],
        resume_step(worker, reply).action is Finish,
{
    assert(resume_step(worker, reply).effects =~= seq![
        emit(WorkerEventView::Attached(Err(error))),
        emit(WorkerEventView::Busy(false)),
    ]);
}

/// Stopping leaves no active session and is always answered with a success, whatever the
/// debugserver answers and whether or not there was a session.
pub proof fn law_stopping_always_succeeds(
    worker: DeviceWorkerView,
    response: Result<Seq<char>, Seq<char>>,
)
    ensures
        ({
            let first = begin_step(worker, WorkerCommandView::Stop);
            let (after, all) = follow(
                first.worker,
                first.effects,
                seq![WorkerReplyView::Response(response)],
            );
            &&& after.active_debug is None
            &&& after.phase is Idle
            &&& exists|text: Seq<char>| all[all.len() - 2] == #[trigger] emit(
                WorkerEventView::DebugResponse(Ok(text)),
            )
        }),
{
    let first = begin_step(worker, WorkerCommandView::Stop);
    let replies = seq![WorkerReplyView::Response(response)];
    reveal_with_fuel(follow, 2);
    let (after, all) = follow(first.worker, first.effects, replies);
    let text = match worker.active_debug {
        None => "Stopped. No active debug session remained."@,
        Some(_) => match response {
            Ok(answer) => if answer.len() == 0 {
                "Stopped script and detached debugger."@
            } else {
                answer
            },
            Err(_) => "Stopped script and cleared debug session."@,
        },
    };
    assert(all[all.len() - 2] == emit(WorkerEventView::DebugResponse(Ok(text))));
}

// ---------------------------------------------------------------------------------------------
// A row of commands
// ---------------------------------------------------------------------------------------------

/// A command and the replies with which it is worked off.
pub ghost struct Job {
    pub command: WorkerCommandView,
    pub replies: Seq<WorkerReplyView>,
}

/// The memory of the worker and all that happened, once a command has been worked off.
pub open spec fn worked_off(worker: DeviceWorkerView, job: Job) -> (
    DeviceWorkerView,
    Seq<WorkerEffectView>,
) {
    let first = begin_step(worker, job.command);
    follow(first.worker, first.effects, job.replies)
}

/// The memory of the worker and all that happened, once a row of commands has been worked off.
pub open spec fn row_worked_off(worker: DeviceWorkerView, jobs: Seq<Job>) -> (
    DeviceWorkerView,
    Seq<WorkerEffectView>,
)
    decreases jobs.len(),
{
    if jobs.len() == 0 {
        (worker, Seq::empty())
    } else {
        let (before, effects) = row_worked_off(worker, jobs.drop_last());
        let (after, more) = worked_off(before, jobs.last());
        (after, effects + more)
    }
}

/// Every command of the row gets the replies that bring it to its end.
pub open spec fn row_ends(worker: DeviceWorkerView, jobs: Seq<Job>) -> bool
    decreases jobs.len(),
{
    jobs.len() > 0 ==> {
        &&& row_ends(worker, jobs.drop_last())
        &&& row_worked_off(worker, jobs).0.phase is Idle
    }
}

/// What the window hears of the worker being busy, in order.
pub open spec fn busy_told(effects: Seq<WorkerEffectView>) -> Seq<bool>
    decreases effects.len(),
{
    if effects.len() == 0 {
        Seq::empty()
    } else {
        let before = busy_told(effects.drop_last());
        match effects.last() {
            WorkerEffectView::Emit(WorkerEventView::Busy(busy)) => before.push(busy),
            _ => before,
        }
    }
}

proof fn lemma_busy_told_in_pieces(first: Seq<WorkerEffectView>, second: Seq<WorkerEffectView>)
    ensures
        busy_told(first + second) == busy_told(first) + busy_told(second),
    decreases second.len(),
{
    let whole = first + second;
    if second.len() == 0 {
        assert(whole =~= first);
    } else {
        lemma_busy_told_in_pieces(first, second.drop_last());
        assert(whole.drop_last() =~= first + second.drop_last());
    }
    assert(busy_told(whole) =~= busy_told(first) + busy_told(second));
}

proof fn lemma_nothing_told(effects: Seq<WorkerEffectView>)
    requires
        forall|i: int| 0 <= i < effects.len() ==> !tells_busy(#[trigger] effects[i]),
    ensures
        busy_told(effects).len() == 0,
    decreases effects.len(),
{
    if effects.len() > 0 {
        assert(!tells_busy(effects[effects.len() - 1]));
        lemma_nothing_told(effects.drop_last());
    }
}

proof fn lemma_one_command_told(effects: Seq<WorkerEffectView>)
    requires
        busy_from_start_to_end(PhaseView::Idle, effects),
    ensures
        busy_told(effects) == seq![true, false],
{
    let first = seq![effects[0]];
    let middle = effects.subrange(1, effects.len() - 1);
    let last = seq![effects.last()];
    assert(effects =~= first + middle + last);
    assert forall|i: int| 0 <= i < middle.len() implies !tells_busy(#[trigger] middle[i]) by {
        assert(middle[i] == effects[i + 1]);
        assert(tells_busy(effects[i + 1]) <==> i + 1 == effects.len() - 1);
    }
    lemma_nothing_told(middle);
    lemma_busy_told_in_pieces(first + middle, last);
    lemma_busy_told_in_pieces(first, middle);
    reveal_with_fuel(busy_told, 2);
    assert(first.drop_last() =~= Seq::<WorkerEffectView>::empty());
    assert(last.drop_last() =~= Seq::<WorkerEffectView>::empty());
    assert(busy_told(effects) =~= seq![true, false]);
}

/// Over a row of commands that are worked off one after the other, the window hears by turns that
/// the worker is busy and that it no longer is: first that it is, last that it is not, and each
/// once for every command.
pub proof fn law_busy_alternates(worker: DeviceWorkerView, jobs: Seq<Job>)
    requires
        row_ends(worker, jobs),
    ensures
        busy_told(row_worked_off(worker, jobs).1) == Seq::new(2 * jobs.len(), |i: int| i % 2 == 0),
    decreases jobs.len(),
{
    let told = busy_told(row_worked_off(worker, jobs).1);
    if jobs.len() > 0 {
        let (before, effects) = row_worked_off(worker, jobs.drop_last());
        let (after, more) = worked_off(before, jobs.last());
        law_busy_alternates(worker, jobs.drop_last());
        law_worker_is_busy_from_start_to_end(before, jobs.last().command, jobs.last().replies);
        lemma_one_command_told(more);
        lemma_busy_told_in_pieces(effects, more);
    }
    assert(told =~= Seq::new(2 * jobs.len(), |i: int| i % 2 == 0));
}

} // verus!
