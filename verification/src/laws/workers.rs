//! Laws on how a command is worked off, from its first action to what the window hears of it.
use vstd::prelude::*;

use crate::debugger::AppView;
use crate::device::{
    AppInfoView, DeviceInfoView, DeviceStatusView, ProcessInfoView, WorkerCommandView,
    WorkerEventView,
};
use crate::host::HostSystem;
use crate::session::heard;
use crate::worker::{
    attach_text, awaits, begin_step, resume_step, DeviceWorkerView, PhaseView,
    ScriptView, WorkerActionView, WorkerEffectView, WorkerReplyView,
};

verus! {

/// The work of a command and of the replies to it: every action in turn, and all effects in order.
pub ghost struct Course {
    pub worker: DeviceWorkerView,
    pub actions: Seq<WorkerActionView>,
    pub effects: Seq<WorkerEffectView>,
}

/// The course of a command to which the given replies come.
pub open spec fn course(
    worker: DeviceWorkerView,
    command: WorkerCommandView,
    replies: Seq<WorkerReplyView>,
) -> Course
    decreases replies.len(),
{
    if replies.len() == 0 {
        let step = begin_step(worker, command);
        Course { worker: step.worker, actions: seq![step.action], effects: step.effects }
    } else {
        let before = course(worker, command, replies.drop_last());
        let step = resume_step(before.worker, replies.last());
        Course {
            worker: step.worker,
            actions: before.actions.push(step.action),
            effects: before.effects + step.effects,
        }
    }
}

/// The window is told.
pub open spec fn told(event: WorkerEventView) -> WorkerEffectView {
    WorkerEffectView::Emit(event)
}

proof fn lemma_course_0(worker: DeviceWorkerView, command: WorkerCommandView)
    ensures
        course(worker, command, Seq::empty()) == (Course {
            worker: begin_step(worker, command).worker,
            actions: seq![begin_step(worker, command).action],
            effects: begin_step(worker, command).effects,
        }),
{
}

proof fn lemma_course_push(
    worker: DeviceWorkerView,
    command: WorkerCommandView,
    replies: Seq<WorkerReplyView>,
    reply: WorkerReplyView,
)
    ensures
        ({
            let before = course(worker, command, replies);
            let step = resume_step(before.worker, reply);
            course(worker, command, replies.push(reply)) == (Course {
                worker: step.worker,
                actions: before.actions.push(step.action),
                effects: before.effects + step.effects,
            })
        }),
{
    assert(replies.push(reply).drop_last() =~= replies);
}

/// Refreshing asks for the devices once, and the window is told of the very answer.
pub proof fn law_refresh_tells_the_devices(
    worker: DeviceWorkerView,
    result: Result<Seq<DeviceInfoView>, Seq<char>>,
)
    ensures
        course(
            worker,
            WorkerCommandView::RefreshDevices,
            seq![WorkerReplyView::Devices(result)],
        ) == (Course {
            worker: DeviceWorkerView {
                active_debug: worker.active_debug,
                phase: PhaseView::Idle,
            },
            actions: seq![WorkerActionView::RefreshDevices, WorkerActionView::Finish],
            effects: seq![
                told(WorkerEventView::Busy(true)),
                told(WorkerEventView::Devices(result)),
                told(WorkerEventView::Busy(false)),
            ],
        }),
{
    let command = WorkerCommandView::RefreshDevices;
    lemma_course_0(worker, command);
    lemma_course_push(worker, command, Seq::empty(), WorkerReplyView::Devices(result));
    let all = course(worker, command, seq![WorkerReplyView::Devices(result)]);
    assert(seq![WorkerReplyView::Devices(result)] =~= Seq::<WorkerReplyView>::empty().push(
        WorkerReplyView::Devices(result),
    ));
    assert(all.actions =~= seq![WorkerActionView::RefreshDevices, WorkerActionView::Finish]);
    assert(all.effects =~= seq![
        told(WorkerEventView::Busy(true)),
        told(WorkerEventView::Devices(result)),
        told(WorkerEventView::Busy(false)),
    ]);
}

/// After a refresh the window's devices are those that were found.
pub proof fn law_found_devices_are_shown(
    app: AppView,
    worker: DeviceWorkerView,
    devices: Seq<DeviceInfoView>,
    now: u64,
    system: HostSystem,
)
    ensures
        heard(
            app,
            course(
                worker,
                WorkerCommandView::RefreshDevices,
                seq![WorkerReplyView::Devices(Ok(devices))],
            ).effects,
            now,
            system,
        ).devices == devices,
{
    law_refresh_tells_the_devices(worker, Ok(devices));
    let effects = seq![
        told(WorkerEventView::Busy(true)),
        told(WorkerEventView::Devices(Ok(devices))),
        told(WorkerEventView::Busy(false)),
    ];
    reveal_with_fuel(heard, 4);
    assert(effects.drop_last().last() == effects[1]);
    assert(effects.drop_last().drop_last().last() == effects[0]);
    assert(effects.drop_last().drop_last().drop_last().len() == 0);
}

/// After the apps of a device were listed, the window's status, apps and processes are those that
/// were found.
pub proof fn law_found_things_are_shown(
    app: AppView,
    worker: DeviceWorkerView,
    udid: Seq<char>,
    status: DeviceStatusView,
    apps: Seq<AppInfoView>,
    processes: Seq<ProcessInfoView>,
    now: u64,
    system: HostSystem,
)
    ensures
        ({
            let shown = heard(
                app,
                course(
                    worker,
                    WorkerCommandView::ListApps { udid },
                    seq![
                        WorkerReplyView::Status(status),
                        WorkerReplyView::Apps(Ok(apps)),
                        WorkerReplyView::Processes(Ok(processes)),
                    ],
                ).effects,
                now,
                system,
            );
            &&& shown.device_status == Some(Ok::<DeviceStatusView, Seq<char>>(status))
            &&& shown.apps == apps
            &&& shown.processes == processes
            &&& shown.devices == app.devices
        }),
{
    law_listing_tells_every_answer(worker, udid, status, Ok(apps), Ok(processes));
    let effects = seq![
        told(WorkerEventView::Busy(true)),
        told(WorkerEventView::DeviceStatus(status)),
        told(WorkerEventView::Apps(Ok(apps))),
        told(WorkerEventView::Processes(Ok(processes))),
        told(WorkerEventView::Busy(false)),
    ];
    reveal_with_fuel(heard, 6);
    let a = effects.drop_last();
    let b = a.drop_last();
    let c = b.drop_last();
    let d = c.drop_last();
    assert(a.last() == effects[3]);
    assert(b.last() == effects[2]);
    assert(c.last() == effects[1]);
    assert(d.last() == effects[0]);
    assert(d.drop_last().len() == 0);
}

/// The window hears of every event in turn, and of nothing else that happens in the worker.
pub proof fn law_window_hears_events_in_turn(
    app: AppView,
    effects: Seq<WorkerEffectView>,
    effect: WorkerEffectView,
    now: u64,
    system: HostSystem,
)
    ensures
        heard(app, Seq::empty(), now, system) == app,
        effect matches WorkerEffectView::Emit(event) ==> heard(
            app,
            effects.push(effect),
            now,
            system,
        ) == heard(app, effects, now, system).handle_event(event, now, system),
        !(effect is Emit) ==> heard(app, effects.push(effect), now, system) == heard(
            app,
            effects,
            now,
            system,
        ),
{
    assert(effects.push(effect).drop_last() =~= effects);
}

/// Listing the apps of a device checks that device, lists its apps and then its processes, and
/// tells the window of each answer as it came.
pub proof fn law_listing_tells_every_answer(
    worker: DeviceWorkerView,
    udid: Seq<char>,
    status: DeviceStatusView,
    apps: Result<Seq<AppInfoView>, Seq<char>>,
    processes: Result<Seq<ProcessInfoView>, Seq<char>>,
)
    ensures
        course(
            worker,
            WorkerCommandView::ListApps { udid },
            seq![
                WorkerReplyView::Status(status),
                WorkerReplyView::Apps(apps),
                WorkerReplyView::Processes(processes),
            ],
        ) == (Course {
            worker: DeviceWorkerView {
                active_debug: worker.active_debug,
                phase: PhaseView::Idle,
            },
            actions: seq![
                WorkerActionView::InspectDevice { udid },
                WorkerActionView::ListApps { udid },
                WorkerActionView::ListProcesses { udid },
                WorkerActionView::Finish,
            ],
            effects: seq![
                told(WorkerEventView::Busy(true)),
                told(WorkerEventView::DeviceStatus(status)),
                told(WorkerEventView::Apps(apps)),
                told(WorkerEventView::Processes(processes)),
                told(WorkerEventView::Busy(false)),
            ],
        }),
{
    let command = WorkerCommandView::ListApps { udid };
    let a = WorkerReplyView::Status(status);
    let b = WorkerReplyView::Apps(apps);
    let c = WorkerReplyView::Processes(processes);
    lemma_three_replies(worker, command, a, b, c);
    let all = course(worker, command, seq![a, b, c]);
    assert(all.actions =~= seq![
        WorkerActionView::InspectDevice { udid },
        WorkerActionView::ListApps { udid },
        WorkerActionView::ListProcesses { udid },
        WorkerActionView::Finish,
    ]);
    assert(all.effects =~= seq![
        told(WorkerEventView::Busy(true)),
        told(WorkerEventView::DeviceStatus(status)),
        told(WorkerEventView::Apps(apps)),
        told(WorkerEventView::Processes(processes)),
        told(WorkerEventView::Busy(false)),
    ]);
}

/// Listing the processes of a device asks that device once and tells the window of the very answer.
pub proof fn law_listing_processes_tells_the_answer(
    worker: DeviceWorkerView,
    udid: Seq<char>,
    processes: Result<Seq<ProcessInfoView>, Seq<char>>,
)
    ensures
        course(
            worker,
            WorkerCommandView::ListProcesses { udid },
            seq![WorkerReplyView::Processes(processes)],
        ) == (Course {
            worker: DeviceWorkerView {
                active_debug: worker.active_debug,
                phase: PhaseView::Idle,
            },
            actions: seq![WorkerActionView::ListProcesses { udid }, WorkerActionView::Finish],
            effects: seq![
                told(WorkerEventView::Busy(true)),
                told(WorkerEventView::Processes(processes)),
                told(WorkerEventView::Busy(false)),
            ],
        }),
{
    let command = WorkerCommandView::ListProcesses { udid };
    let a = WorkerReplyView::Processes(processes);
    lemma_course_0(worker, command);
    lemma_course_push(worker, command, Seq::empty(), a);
    assert(seq![a] =~= Seq::<WorkerReplyView>::empty().push(a));
    let all = course(worker, command, seq![a]);
    assert(all.actions =~= seq![
        WorkerActionView::ListProcesses { udid },
        WorkerActionView::Finish,
    ]);
    assert(all.effects =~= seq![
        told(WorkerEventView::Busy(true)),
        told(WorkerEventView::Processes(processes)),
        told(WorkerEventView::Busy(false)),
    ]);
}

proof fn lemma_two_replies(
    worker: DeviceWorkerView,
    command: WorkerCommandView,
    a: WorkerReplyView,
    b: WorkerReplyView,
)
    ensures
        ({
            let first = begin_step(worker, command);
            let second = resume_step(first.worker, a);
            let third = resume_step(second.worker, b);
            course(worker, command, seq![a, b]) == (Course {
                worker: third.worker,
                actions: seq![first.action].push(second.action).push(third.action),
                effects: first.effects + second.effects + third.effects,
            })
        }),
{
    lemma_course_0(worker, command);
    lemma_course_push(worker, command, Seq::empty(), a);
    assert(seq![a] =~= Seq::<WorkerReplyView>::empty().push(a));
    lemma_course_push(worker, command, seq![a], b);
    assert(seq![a, b] =~= seq![a].push(b));
}

proof fn lemma_three_replies(
    worker: DeviceWorkerView,
    command: WorkerCommandView,
    a: WorkerReplyView,
    b: WorkerReplyView,
    c: WorkerReplyView,
)
    ensures
        ({
            let first = begin_step(worker, command);
            let second = resume_step(first.worker, a);
            let third = resume_step(second.worker, b);
            let fourth = resume_step(third.worker, c);
            course(worker, command, seq![a, b, c]) == (Course {
                worker: fourth.worker,
                actions: seq![first.action].push(second.action).push(third.action).push(
                    fourth.action,
                ),
                effects: first.effects + second.effects + third.effects + fourth.effects,
            })
        }),
{
    lemma_two_replies(worker, command, a, b);
    lemma_course_push(worker, command, seq![a, b], c);
    assert(seq![a, b, c] =~= seq![a, b].push(c));
}

proof fn lemma_four_replies(
    worker: DeviceWorkerView,
    command: WorkerCommandView,
    a: WorkerReplyView,
    b: WorkerReplyView,
    c: WorkerReplyView,
    d: WorkerReplyView,
)
    ensures
        ({
            let first = begin_step(worker, command);
            let second = resume_step(first.worker, a);
            let third = resume_step(second.worker, b);
            let fourth = resume_step(third.worker, c);
            let fifth = resume_step(fourth.worker, d);
            course(worker, command, seq![a, b, c, d]) == (Course {
                worker: fifth.worker,
                actions: seq![first.action].push(second.action).push(third.action).push(
                    fourth.action,
                ).push(fifth.action),
                effects: first.effects + second.effects + third.effects + fourth.effects
                    + fifth.effects,
            })
        }),
{
    lemma_three_replies(worker, command, a, b, c);
    lemma_course_push(worker, command, seq![a, b, c], d);
    assert(seq![a, b, c, d] =~= seq![a, b, c].push(d));
}

/// Enabling JIT for an app launches that app on that device, suspended; attaches to the process
/// that was launched, by its number; and detaches. The window is told of the process and of both
/// answers, and the active session stays as it was.
pub proof fn law_enabling_launches_attaches_and_detaches(
    worker: DeviceWorkerView,
    udid: Seq<char>,
    bundle_id: Seq<char>,
    pid: u32,
    attached: Seq<char>,
    detached: Seq<char>,
)
    ensures
        course(
            worker,
            WorkerCommandView::LaunchAndAttach { udid, bundle_id },
            seq![
                WorkerReplyView::Launched(Ok(pid)),
                WorkerReplyView::Connected(Ok(())),
                WorkerReplyView::Response(Ok(attached)),
                WorkerReplyView::Response(Ok(detached)),
            ],
        ) == (Course {
            worker: DeviceWorkerView {
                active_debug: worker.active_debug,
                phase: PhaseView::Idle,
            },
            actions: seq![
                WorkerActionView::LaunchApp { udid, bundle_id, start_suspended: true },
                WorkerActionView::AttachDebugger { udid, pid },
                WorkerActionView::SendToNewSession { command: attach_text(pid) },
                WorkerActionView::SendToNewSession { command: "D"@ },
                WorkerActionView::Finish,
            ],
            effects: seq![
                told(WorkerEventView::Busy(true)),
                told(WorkerEventView::Launched(Ok(pid))),
                told(WorkerEventView::Attached(Ok(attached))),
                told(WorkerEventView::DebugResponse(Ok(detached))),
                told(WorkerEventView::Busy(false)),
            ],
        }),
{
    let command = WorkerCommandView::LaunchAndAttach { udid, bundle_id };
    let a = WorkerReplyView::Launched(Ok(pid));
    let b = WorkerReplyView::Connected(Ok(()));
    let c = WorkerReplyView::Response(Ok(attached));
    let d = WorkerReplyView::Response(Ok(detached));
    lemma_four_replies(worker, command, a, b, c, d);
    let all = course(worker, command, seq![a, b, c, d]);
    assert(all.actions =~= seq![
        WorkerActionView::LaunchApp { udid, bundle_id, start_suspended: true },
        WorkerActionView::AttachDebugger { udid, pid },
        WorkerActionView::SendToNewSession { command: attach_text(pid) },
        WorkerActionView::SendToNewSession { command: "D"@ },
        WorkerActionView::Finish,
    ]);
    assert(all.effects =~= seq![
        told(WorkerEventView::Busy(true)),
        told(WorkerEventView::Launched(Ok(pid))),
        told(WorkerEventView::Attached(Ok(attached))),
        told(WorkerEventView::DebugResponse(Ok(detached))),
        told(WorkerEventView::Busy(false)),
    ]);
}

/// Enabling JIT for an app via a script launches that app on that device, suspended, and attaches
/// to the process that was launched; the session is kept and that script runs in it, under its name
/// and with its source.
pub proof fn law_enabling_via_a_script_runs_it_on_the_launched_app(
    worker: DeviceWorkerView,
    udid: Seq<char>,
    bundle_id: Seq<char>,
    name: Seq<char>,
    source: Seq<char>,
    pid: u32,
    attached: Seq<char>,
)
    ensures
        course(
            worker,
            WorkerCommandView::LaunchAndAttachAndRunScript { udid, bundle_id, name, source },
            seq![
                WorkerReplyView::Launched(Ok(pid)),
                WorkerReplyView::Connected(Ok(())),
                WorkerReplyView::Response(Ok(attached)),
            ],
        ) == (Course {
            worker: DeviceWorkerView { active_debug: Some(pid), phase: PhaseView::Idle },
            actions: seq![
                WorkerActionView::LaunchApp { udid, bundle_id, start_suspended: true },
                WorkerActionView::AttachDebugger { udid, pid },
                WorkerActionView::SendToNewSession { command: attach_text(pid) },
                WorkerActionView::Finish,
            ],
            effects: seq![
                told(WorkerEventView::Busy(true)),
                told(WorkerEventView::Launched(Ok(pid))),
                told(WorkerEventView::Attached(Ok(attached))),
                WorkerEffectView::KeepSession,
                WorkerEffectView::StartScript { pid, script: ScriptView { name, source } },
                told(WorkerEventView::Busy(false)),
            ],
        }),
{
    let command = WorkerCommandView::LaunchAndAttachAndRunScript { udid, bundle_id, name, source };
    let a = WorkerReplyView::Launched(Ok(pid));
    let b = WorkerReplyView::Connected(Ok(()));
    let c = WorkerReplyView::Response(Ok(attached));
    lemma_three_replies(worker, command, a, b, c);
    let all = course(worker, command, seq![a, b, c]);
    assert(all.actions =~= seq![
        WorkerActionView::LaunchApp { udid, bundle_id, start_suspended: true },
        WorkerActionView::AttachDebugger { udid, pid },
        WorkerActionView::SendToNewSession { command: attach_text(pid) },
        WorkerActionView::Finish,
    ]);
    assert(all.effects =~= seq![
        told(WorkerEventView::Busy(true)),
        told(WorkerEventView::Launched(Ok(pid))),
        told(WorkerEventView::Attached(Ok(attached))),
        WorkerEffectView::KeepSession,
        WorkerEffectView::StartScript { pid, script: ScriptView { name, source } },
        told(WorkerEventView::Busy(false)),
    ]);
}

/// Attaching opens a session for that process on that device and keeps it.
pub proof fn law_attaching_keeps_a_session_for_the_process(
    worker: DeviceWorkerView,
    udid: Seq<char>,
    pid: u32,
    attached: Seq<char>,
)
    ensures
        course(
            worker,
            WorkerCommandView::Attach { udid, pid },
            seq![WorkerReplyView::Connected(Ok(())), WorkerReplyView::Response(Ok(attached))],
        ) == (Course {
            worker: DeviceWorkerView { active_debug: Some(pid), phase: PhaseView::Idle },
            actions: seq![
                WorkerActionView::AttachDebugger { udid, pid },
                WorkerActionView::SendToNewSession { command: attach_text(pid) },
                WorkerActionView::Finish,
            ],
            effects: seq![
                told(WorkerEventView::Busy(true)),
                WorkerEffectView::KeepSession,
                told(WorkerEventView::Attached(Ok(attached))),
                told(WorkerEventView::Busy(false)),
            ],
        }),
{
    let command = WorkerCommandView::Attach { udid, pid };
    let a = WorkerReplyView::Connected(Ok(()));
    let b = WorkerReplyView::Response(Ok(attached));
    lemma_two_replies(worker, command, a, b);
    let all = course(worker, command, seq![a, b]);
    assert(all.actions =~= seq![
        WorkerActionView::AttachDebugger { udid, pid },
        WorkerActionView::SendToNewSession { command: attach_text(pid) },
        WorkerActionView::Finish,
    ]);
    assert(all.effects =~= seq![
        told(WorkerEventView::Busy(true)),
        WorkerEffectView::KeepSession,
        told(WorkerEventView::Attached(Ok(attached))),
        told(WorkerEventView::Busy(false)),
    ]);
}

/// Attaching with a script opens a session for that process, keeps it and runs that script in it.
pub proof fn law_attaching_with_a_script_runs_it_on_the_process(
    worker: DeviceWorkerView,
    udid: Seq<char>,
    pid: u32,
    name: Seq<char>,
    source: Seq<char>,
    attached: Seq<char>,
)
    ensures
        course(
            worker,
            WorkerCommandView::AttachAndRun { udid, pid, name, source },
            seq![WorkerReplyView::Connected(Ok(())), WorkerReplyView::Response(Ok(attached))],
        ) == (Course {
            worker: DeviceWorkerView { active_debug: Some(pid), phase: PhaseView::Idle },
            actions: seq![
                WorkerActionView::AttachDebugger { udid, pid },
                WorkerActionView::SendToNewSession { command: attach_text(pid) },
                WorkerActionView::Finish,
            ],
            effects: seq![
                told(WorkerEventView::Busy(true)),
                told(WorkerEventView::Attached(Ok(attached))),
                WorkerEffectView::KeepSession,
                WorkerEffectView::StartScript { pid, script: ScriptView { name, source } },
                told(WorkerEventView::Busy(false)),
            ],
        }),
{
    let command = WorkerCommandView::AttachAndRun { udid, pid, name, source };
    let a = WorkerReplyView::Connected(Ok(()));
    let b = WorkerReplyView::Response(Ok(attached));
    lemma_two_replies(worker, command, a, b);
    let all = course(worker, command, seq![a, b]);
    assert(all.actions =~= seq![
        WorkerActionView::AttachDebugger { udid, pid },
        WorkerActionView::SendToNewSession { command: attach_text(pid) },
        WorkerActionView::Finish,
    ]);
    assert(all.effects =~= seq![
        told(WorkerEventView::Busy(true)),
        told(WorkerEventView::Attached(Ok(attached))),
        WorkerEffectView::KeepSession,
        WorkerEffectView::StartScript { pid, script: ScriptView { name, source } },
        told(WorkerEventView::Busy(false)),
    ]);
}

/// The events with which a stop is answered.
pub open spec fn stop_answer(response: Result<Seq<char>, Seq<char>>) -> Seq<WorkerEffectView> {
    match response {
        Ok(text) => if text.len() > 0 {
            seq![told(WorkerEventView::DebugResponse(Ok(text)))]
        } else {
            seq![
                told(WorkerEventView::DebugResponse(Ok("Stopped script and detached debugger."@))),
            ]
        },
        Err(error) => seq![
            told(
                WorkerEventView::Log(
                    "Stop detached local session after debugserver error: "@ + error,
                ),
            ),
            told(WorkerEventView::DebugResponse(Ok("Stopped script and cleared debug session."@))),
        ],
    }
}

/// Stopping releases the active session, sends `D` in it and tells the window of the answer;
/// without a session it only says so.
pub proof fn law_stopping_releases_and_detaches(
    worker: DeviceWorkerView,
    pid: u32,
    response: Result<Seq<char>, Seq<char>>,
)
    ensures
        worker.active_debug == Some(pid) ==> course(
            worker,
            WorkerCommandView::Stop,
            seq![WorkerReplyView::Response(response)],
        ) == (Course {
            worker: DeviceWorkerView { active_debug: None, phase: PhaseView::Idle },
            actions: seq![
                WorkerActionView::SendToReleasedSession { command: "D"@ },
                WorkerActionView::Finish,
            ],
            effects: seq![told(WorkerEventView::Busy(true)), WorkerEffectView::ReleaseSession]
                + stop_answer(response).push(told(WorkerEventView::Busy(false))),
        }),
        worker.active_debug is None ==> course(worker, WorkerCommandView::Stop, Seq::empty()) == (
        Course {
            worker: DeviceWorkerView { active_debug: None, phase: PhaseView::Idle },
            actions: seq![WorkerActionView::Finish],
            effects: seq![
                told(WorkerEventView::Busy(true)),
                told(
                    WorkerEventView::DebugResponse(
                        Ok("Stopped. No active debug session remained."@),
                    ),
                ),
                told(WorkerEventView::Busy(false)),
            ],
        }),
{
    let command = WorkerCommandView::Stop;
    lemma_course_0(worker, command);
    if worker.active_debug is Some {
        let a = WorkerReplyView::Response(response);
        lemma_course_push(worker, command, Seq::empty(), a);
        assert(seq![a] =~= Seq::<WorkerReplyView>::empty().push(a));
        let all = course(worker, command, seq![a]);
        assert(all.actions =~= seq![
            WorkerActionView::SendToReleasedSession { command: "D"@ },
            WorkerActionView::Finish,
        ]);
        assert(all.effects =~= seq![
            told(WorkerEventView::Busy(true)),
            WorkerEffectView::ReleaseSession,
        ] + stop_answer(response).push(told(WorkerEventView::Busy(false))));
    } else {
        let all = course(worker, command, Seq::empty());
        assert(all.actions =~= seq![WorkerActionView::Finish]);
        assert(all.effects =~= seq![
            told(WorkerEventView::Busy(true)),
            told(
                WorkerEventView::DebugResponse(Ok("Stopped. No active debug session remained."@)),
            ),
            told(WorkerEventView::Busy(false)),
        ]);
    }
}

/// Where launching fails, the command ends there, and the window is told the error alone.
pub proof fn law_failed_launch_ends_the_command(
    worker: DeviceWorkerView,
    udid: Seq<char>,
    bundle_id: Seq<char>,
    name: Seq<char>,
    source: Seq<char>,
    error: Seq<char>,
)
    ensures
        ({
            let expected = Course {
                worker: DeviceWorkerView {
                    active_debug: worker.active_debug,
                    phase: PhaseView::Idle,
                },
                actions: seq![
                    WorkerActionView::LaunchApp { udid, bundle_id, start_suspended: true },
                    WorkerActionView::Finish,
                ],
                effects: seq![
                    told(WorkerEventView::Busy(true)),
                    told(WorkerEventView::Attached(Err(error))),
                    told(WorkerEventView::Busy(false)),
                ],
            };
            let failed = seq![WorkerReplyView::Launched(Err(error))];
            &&& course(worker, WorkerCommandView::LaunchAndAttach { udid, bundle_id }, failed)
                == expected
            &&& course(
                worker,
                WorkerCommandView::LaunchAndAttachAndRunScript { udid, bundle_id, name, source },
                failed,
            ) == expected
        }),
{
    let a = WorkerReplyView::Launched(Err(error));
    let first = WorkerCommandView::LaunchAndAttach { udid, bundle_id };
    let second = WorkerCommandView::LaunchAndAttachAndRunScript { udid, bundle_id, name, source };
    assert(seq![a] =~= Seq::<WorkerReplyView>::empty().push(a));
    lemma_course_0(worker, first);
    lemma_course_push(worker, first, Seq::empty(), a);
    lemma_course_0(worker, second);
    lemma_course_push(worker, second, Seq::empty(), a);
    let actions = seq![
        WorkerActionView::LaunchApp { udid, bundle_id, start_suspended: true },
        WorkerActionView::Finish,
    ];
    let effects = seq![
        told(WorkerEventView::Busy(true)),
        told(WorkerEventView::Attached(Err(error))),
        told(WorkerEventView::Busy(false)),
    ];
    assert(course(worker, first, seq![a]).actions =~= actions);
    assert(course(worker, first, seq![a]).effects =~= effects);
    assert(course(worker, second, seq![a]).actions =~= actions);
    assert(course(worker, second, seq![a]).effects =~= effects);
}

/// Where connecting, attaching or detaching fails, the command ends there too, and the window is
/// told the error alone; the active session stays as it was.
pub proof fn law_failed_attachment_ends_the_command(
    worker: DeviceWorkerView,
    reply: WorkerReplyView,
    error: Seq<char>,
)
    requires
        awaits(worker.phase, reply),
        !(worker.phase is Stopping),
        reply == WorkerReplyView::Connected(Err(error)) || reply == WorkerReplyView::Response(
            Err(error),
        ),
    ensures
        ({
            let step = resume_step(worker, reply);
            &&& step.worker == DeviceWorkerView {
                active_debug: worker.active_debug,
                phase: PhaseView::Idle,
            }
            &&& step.action is Finish
            &&& step.effects == seq![
                told(WorkerEventView::Attached(Err(error))),
                told(WorkerEventView::Busy(false)),
            ]
        }),
{
    assert(resume_step(worker, reply).effects =~= seq![
        told(WorkerEventView::Attached(Err(error))),
        told(WorkerEventView::Busy(false)),
    ]);
}

/// What a worker waits for it takes, and nothing else: after each action the reply to that action.
pub proof fn law_replies_answer_the_last_action(
    worker: DeviceWorkerView,
    command: WorkerCommandView,
    reply: WorkerReplyView,
)
    ensures
        ({
            let step = begin_step(worker, command);
            &&& awaits(step.worker.phase, reply) <==> answers(step.action, reply)
            &&& awaits(worker.phase, reply) ==> {
                let next = resume_step(worker, reply);
                forall|later: WorkerReplyView|
                    #[trigger] awaits(next.worker.phase, later) <==> answers(next.action, later)
            }
        }),
{
}

/// The reply is one to the action.
pub open spec fn answers(action: WorkerActionView, reply: WorkerReplyView) -> bool {
    match action {
        WorkerActionView::RefreshDevices => reply is Devices,
        WorkerActionView::InspectDevice { .. } => reply is Status,
        WorkerActionView::ListApps { .. } => reply is Apps,
        WorkerActionView::ListProcesses { .. } => reply is Processes,
        WorkerActionView::LaunchApp { .. } => reply is Launched,
        WorkerActionView::AttachDebugger { .. } => reply is Connected,
        WorkerActionView::SendToNewSession { .. } => reply is Response,
        WorkerActionView::SendToReleasedSession { .. } => reply is Response,
        WorkerActionView::Finish => false,
    }
}

} // verus!
