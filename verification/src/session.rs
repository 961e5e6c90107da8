//! The worker and the window together: what the window shows once a command has been worked off.
use vstd::prelude::*;

use crate::controls::law_entered_number_is_read_back;
use crate::debugger::AppView;
use crate::device::WorkerCommandView;
use crate::host::HostSystem;
use crate::worker::{
    awaits, begin_step, follow, law_failed_attachment_is_reported,
    law_worker_is_busy_from_start_to_end, resume_step, DeviceWorkerView, ScriptView,
    WorkerEffectView, WorkerReplyView,
};

verus! {

/// What the window remembers once it has heard of all that happened in the worker, in order.
pub open spec fn heard(
    app: AppView,
    effects: Seq<WorkerEffectView>,
    now: u64,
    system: HostSystem,
) -> AppView
    decreases effects.len(),
{
    if effects.len() == 0 {
        app
    } else {
        let before = heard(app, effects.drop_last(), now, system);
        match effects.last() {
            WorkerEffectView::Emit(event) => before.handle_event(event, now, system),
            _ => before,
        }
    }
}

/// Once a command has been worked off, whatever it was and however the work went, the window no
/// longer shows the worker as busy.
pub proof fn law_window_is_free_after_a_command(
    app: AppView,
    worker: DeviceWorkerView,
    command: WorkerCommandView,
    replies: Seq<WorkerReplyView>,
    now: u64,
    system: HostSystem,
)
    ensures
        ({
            let first = begin_step(worker, command);
            let (after, all) = follow(first.worker, first.effects, replies);
            after.phase is Idle ==> !heard(app, all, now, system).busy
        }),
{
    law_worker_is_busy_from_start_to_end(worker, command, replies);
}

/// Where launching or attaching fails, the window shows no script as running, and is attached if
/// and only if it was before.
pub proof fn law_failed_start_is_not_shown_as_running(
    app: AppView,
    worker: DeviceWorkerView,
    reply: WorkerReplyView,
    error: Seq<char>,
    now: u64,
    system: HostSystem,
)
    requires
        awaits(worker.phase, reply),
        !(worker.phase is Stopping),
        reply == WorkerReplyView::Launched(Err(error)) || reply == WorkerReplyView::Connected(
            Err(error),
        ) || reply == WorkerReplyView::Response(Err(error)),
    ensures
        ({
            let after = heard(app, resume_step(worker, reply).effects, now, system);
            &&& !after.script_running
            &&& after.attached == app.attached
            &&& after.logs == app.logs.push("Attach failed: "@ + error)
        }),
{
    law_failed_attachment_is_reported(worker, reply, error);
    reveal_with_fuel(heard, 3);
    let effects = resume_step(worker, reply).effects;
    assert(effects.drop_last().drop_last().len() == 0);
}

/// Enabling JIT for an app without a script launches it, attaches and detaches: in the end the
/// window shows nothing as attached, and the number of the launched process is entered.
pub proof fn law_enabling_without_a_script_detaches(
    app: AppView,
    worker: DeviceWorkerView,
    udid: Seq<char>,
    bundle_id: Seq<char>,
    pid: u32,
    attach_response: Seq<char>,
    detach_response: Seq<char>,
    now: u64,
    system: HostSystem,
)
    ensures
        ({
            let first = begin_step(worker, WorkerCommandView::LaunchAndAttach { udid, bundle_id });
            let (after, all) = follow(
                first.worker,
                first.effects,
                seq![
                    WorkerReplyView::Launched(Ok(pid)),
                    WorkerReplyView::Connected(Ok(())),
                    WorkerReplyView::Response(Ok(attach_response)),
                    WorkerReplyView::Response(Ok(detach_response)),
                ],
            );
            let shown = heard(app, all, now, system);
            &&& after.phase is Idle
            &&& after.active_debug == worker.active_debug
            &&& !shown.attached
            &&& shown.entered_pid() == Some(pid)
            &&& shown.script_running == app.script_running
        }),
{
    let first = begin_step(worker, WorkerCommandView::LaunchAndAttach { udid, bundle_id });
    let replies = seq![
        WorkerReplyView::Launched(Ok(pid)),
        WorkerReplyView::Connected(Ok(())),
        WorkerReplyView::Response(Ok(attach_response)),
        WorkerReplyView::Response(Ok(detach_response)),
    ];
    let second = resume_step(first.worker, replies[0]);
    let third = resume_step(second.worker, replies[1]);
    let fourth = resume_step(third.worker, replies[2]);
    let fifth = resume_step(fourth.worker, replies[3]);
    assert(replies.drop_first()[0] == replies[1]);
    assert(replies.drop_first().drop_first()[0] == replies[2]);
    assert(replies.drop_first().drop_first().drop_first()[0] == replies[3]);
    reveal_with_fuel(follow, 5);
    let (after, all) = follow(first.worker, first.effects, replies);
    assert(all =~= seq![
        first.effects[0],
        fifth.effects[0],
        fifth.effects[1],
        fifth.effects[2],
        fifth.effects[3],
    ]);
    reveal_with_fuel(heard, 6);
    let a = all.drop_last();
    let b = a.drop_last();
    let c = b.drop_last();
    let d = c.drop_last();
    assert(a.last() == fifth.effects[2]);
    assert(b.last() == fifth.effects[1]);
    assert(c.last() == fifth.effects[0]);
    assert(d.last() == first.effects[0]);
    assert(d.drop_last().len() == 0);
    law_entered_number_is_read_back(heard(app, all, now, system), pid);
}

/// Running a script on a process: when the debugger has attached, the script starts in a session
/// that the worker keeps, and the window shows the process as attached.
pub proof fn law_running_a_script_attaches(
    app: AppView,
    worker: DeviceWorkerView,
    udid: Seq<char>,
    pid: u32,
    name: Seq<char>,
    source: Seq<char>,
    response: Seq<char>,
    now: u64,
    system: HostSystem,
)
    ensures
        ({
            let first = begin_step(
                worker,
                WorkerCommandView::AttachAndRun { udid, pid, name, source },
            );
            let (after, all) = follow(
                first.worker,
                first.effects,
                seq![WorkerReplyView::Connected(Ok(())), WorkerReplyView::Response(Ok(response))],
            );
            let shown = heard(app, all, now, system);
            &&& after.active_debug == Some(pid)
            &&& all.contains(
                WorkerEffectView::StartScript {
                    pid,
                    script: ScriptView { name, source },
                },
            )
            &&& shown.attached
            &&& shown.script_running == app.script_running
        }),
{
    let first = begin_step(worker, WorkerCommandView::AttachAndRun { udid, pid, name, source });
    let replies = seq![
        WorkerReplyView::Connected(Ok(())),
        WorkerReplyView::Response(Ok(response)),
    ];
    let second = resume_step(first.worker, replies[0]);
    let third = resume_step(second.worker, replies[1]);
    assert(replies.drop_first()[0] == replies[1]);
    reveal_with_fuel(follow, 3);
    let (after, all) = follow(first.worker, first.effects, replies);
    assert(all =~= seq![
        first.effects[0],
        third.effects[0],
        third.effects[1],
        third.effects[2],
        third.effects[3],
    ]);
    assert(all[3] == WorkerEffectView::StartScript { pid, script: ScriptView { name, source } });
    reveal_with_fuel(heard, 6);
    let a = all.drop_last();
    let b = a.drop_last();
    let c = b.drop_last();
    let d = c.drop_last();
    assert(a.last() == third.effects[2]);
    assert(b.last() == third.effects[1]);
    assert(c.last() == third.effects[0]);
    assert(d.last() == first.effects[0]);
    assert(d.drop_last().len() == 0);
}

} // verus!
