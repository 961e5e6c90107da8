use jitserver::device::{DeviceStatus, WorkerCommand, WorkerEvent};
use jitserver::scripts::{
    answered_command, closing_events, ensure_not_cancelled, is_stop_cancellation_error,
    opening_event, prelude_failure, script_outcome, SCRIPT_PRELUDE,
};
use jitserver::worker::{
    attach_command, configure_no_ack_mode, DeviceWorker, NoAckStep, WorkerAction, WorkerEffect, WorkerReply, WorkerStep,
};

/// A short form of what happens on the way.
fn effects(step: &WorkerStep) -> Vec<String> {
    step.effects
        .iter()
        .map(|effect| match effect {
            WorkerEffect::Emit(WorkerEvent::Busy(busy)) => format!("busy {busy}"),
            WorkerEffect::Emit(WorkerEvent::Devices(result)) => format!("devices {}", result.is_ok()),
            WorkerEffect::Emit(WorkerEvent::DeviceStatus(_)) => "status".to_string(),
            WorkerEffect::Emit(WorkerEvent::Apps(result)) => format!("apps {}", result.is_ok()),
            WorkerEffect::Emit(WorkerEvent::Processes(result)) => {
                format!("processes {}", result.is_ok())
            }
            WorkerEffect::Emit(WorkerEvent::Launched(result)) => format!("launched {result:?}"),
            WorkerEffect::Emit(WorkerEvent::Attached(result)) => format!("attached {result:?}"),
            WorkerEffect::Emit(WorkerEvent::DebugResponse(result)) => format!("response {result:?}"),
            WorkerEffect::Emit(WorkerEvent::ScriptFinished(result)) => {
                format!("finished {result:?}")
            }
            WorkerEffect::Emit(WorkerEvent::Log(line)) => format!("log {line}"),
            WorkerEffect::KeepSession => "keep".to_string(),
            WorkerEffect::StartScript { pid, script } => {
                format!("start {pid} {} {}", script.name, script.source)
            }
            WorkerEffect::ReleaseSession => "release".to_string(),
        })
        .collect()
}

fn resume(worker: &mut DeviceWorker, reply: WorkerReply) -> WorkerStep {
    assert!(worker.accepts(&reply));
    worker.resume(reply)
}

fn response(text: &str) -> WorkerReply {
    WorkerReply::Response(Ok(text.to_string()))
}

fn launch() -> WorkerCommand {
    WorkerCommand::LaunchAndAttach {
        udid: "u".to_string(),
        bundle_id: "b".to_string(),
    }
}

fn attach(pid: u32) -> WorkerCommand {
    WorkerCommand::Attach {
        udid: "u".to_string(),
        pid,
    }
}

#[test]
fn refreshing_devices_takes_one_reply() {
    let mut worker = DeviceWorker::new();
    let step = worker.begin(WorkerCommand::RefreshDevices);
    assert_eq!(effects(&step), ["busy true"]);
    assert!(matches!(step.action, WorkerAction::RefreshDevices));
    assert!(!worker.accepts(&response("")));
    let step = resume(&mut worker, WorkerReply::Devices(Ok(vec![])));
    assert_eq!(effects(&step), ["devices true", "busy false"]);
    assert!(matches!(step.action, WorkerAction::Finish));
}

#[test]
fn listing_apps_checks_the_device_first_and_lists_processes_last() {
    let mut worker = DeviceWorker::new();
    let step = worker.begin(WorkerCommand::ListApps {
        udid: "u".to_string(),
    });
    assert!(matches!(step.action, WorkerAction::InspectDevice { udid } if udid == "u"));
    let step = resume(&mut worker, WorkerReply::Status(DeviceStatus::default()));
    assert_eq!(effects(&step), ["status"]);
    assert!(matches!(step.action, WorkerAction::ListApps { udid } if udid == "u"));
    let step = resume(&mut worker, WorkerReply::Apps(Err("no".to_string())));
    assert_eq!(effects(&step), ["apps false"]);
    assert!(matches!(step.action, WorkerAction::ListProcesses { udid } if udid == "u"));
    let step = resume(&mut worker, WorkerReply::Processes(Ok(vec![])));
    assert_eq!(effects(&step), ["processes true", "busy false"]);
}

#[test]
fn listing_processes_lists_nothing_else() {
    let mut worker = DeviceWorker::new();
    let step = worker.begin(WorkerCommand::ListProcesses {
        udid: "u".to_string(),
    });
    assert!(matches!(step.action, WorkerAction::ListProcesses { udid } if udid == "u"));
    let step = resume(&mut worker, WorkerReply::Processes(Err("no".to_string())));
    assert_eq!(effects(&step), ["processes false", "busy false"]);
}

#[test]
fn launching_attaches_and_detaches() {
    let mut worker = DeviceWorker::new();
    let step = worker.begin(launch());
    assert!(matches!(
        step.action,
        WorkerAction::LaunchApp { udid, bundle_id, start_suspended: true }
            if udid == "u" && bundle_id == "b"
    ));
    let step = resume(&mut worker, WorkerReply::Launched(Ok(255)));
    assert!(matches!(
        step.action,
        WorkerAction::AttachDebugger { udid, pid: 255 } if udid == "u"
    ));
    let step = resume(&mut worker, WorkerReply::Connected(Ok(())));
    assert!(matches!(
        step.action,
        WorkerAction::SendToNewSession { command } if command == "vAttach;ff"
    ));
    let step = resume(&mut worker, response("T11"));
    assert!(effects(&step).is_empty());
    assert!(matches!(
        step.action,
        WorkerAction::SendToNewSession { command } if command == "D"
    ));
    let step = resume(&mut worker, response("OK"));
    assert_eq!(
        effects(&step),
        [
            "launched Ok(255)",
            "attached Ok(\"T11\")",
            "response Ok(\"OK\")",
            "busy false"
        ]
    );
    assert_eq!(worker.active_debug, None);
}

#[test]
fn launching_with_a_script_keeps_the_session() {
    let mut worker = DeviceWorker::new();
    worker.begin(WorkerCommand::LaunchAndAttachAndRunScript {
        udid: "u".to_string(),
        bundle_id: "b".to_string(),
        name: "n.js".to_string(),
        source: "s".to_string(),
    });
    resume(&mut worker, WorkerReply::Launched(Ok(8)));
    resume(&mut worker, WorkerReply::Connected(Ok(())));
    let step = resume(&mut worker, response("T11"));
    assert_eq!(
        effects(&step),
        [
            "launched Ok(8)",
            "attached Ok(\"T11\")",
            "keep",
            "start 8 n.js s",
            "busy false"
        ]
    );
    assert_eq!(worker.active_debug, Some(8));
}

#[test]
fn attaching_keeps_the_session() {
    let mut worker = DeviceWorker::new();
    let step = worker.begin(attach(16));
    assert!(matches!(
        step.action,
        WorkerAction::AttachDebugger { udid, pid: 16 } if udid == "u"
    ));
    let step = resume(&mut worker, WorkerReply::Connected(Ok(())));
    assert!(matches!(
        step.action,
        WorkerAction::SendToNewSession { command } if command == attach_command(16)
    ));
    assert_eq!(attach_command(16), "vAttach;10");
    let step = resume(&mut worker, response("T05"));
    assert_eq!(effects(&step), ["keep", "attached Ok(\"T05\")", "busy false"]);
    assert_eq!(worker.active_debug, Some(16));
}

#[test]
fn attaching_with_a_script_starts_it() {
    let mut worker = DeviceWorker::new();
    worker.begin(WorkerCommand::AttachAndRun {
        udid: "u".to_string(),
        pid: 4,
        name: "n.js".to_string(),
        source: "s".to_string(),
    });
    resume(&mut worker, WorkerReply::Connected(Ok(())));
    let step = resume(&mut worker, response(""));
    assert_eq!(
        effects(&step),
        [
            "attached Ok(\"\")",
            "keep",
            "start 4 n.js s",
            "busy false"
        ]
    );
}

#[test]
fn any_failure_on_the_way_is_a_failed_attachment() {
    let failed = ["attached Err(\"no\")", "busy false"];
    let mut worker = DeviceWorker::new();
    worker.begin(attach(3));
    resume(&mut worker, WorkerReply::Connected(Ok(())));
    resume(&mut worker, response(""));

    worker.begin(launch());
    let step = resume(&mut worker, WorkerReply::Launched(Err("no".to_string())));
    assert_eq!(effects(&step), failed);

    worker.begin(launch());
    resume(&mut worker, WorkerReply::Launched(Ok(1)));
    let step = resume(&mut worker, WorkerReply::Connected(Err("no".to_string())));
    assert_eq!(effects(&step), failed);

    worker.begin(launch());
    resume(&mut worker, WorkerReply::Launched(Ok(1)));
    resume(&mut worker, WorkerReply::Connected(Ok(())));
    let step = resume(&mut worker, WorkerReply::Response(Err("no".to_string())));
    assert_eq!(effects(&step), failed);

    worker.begin(launch());
    resume(&mut worker, WorkerReply::Launched(Ok(1)));
    resume(&mut worker, WorkerReply::Connected(Ok(())));
    resume(&mut worker, response(""));
    let step = resume(&mut worker, WorkerReply::Response(Err("no".to_string())));
    assert_eq!(effects(&step), failed);
    assert_eq!(worker.active_debug, Some(3));
}

#[test]
fn stopping_never_fails() {
    let mut worker = DeviceWorker::new();
    let step = worker.begin(WorkerCommand::Stop);
    assert_eq!(
        effects(&step),
        [
            "busy true",
            "response Ok(\"Stopped. No active debug session remained.\")",
            "busy false"
        ]
    );
    assert!(matches!(step.action, WorkerAction::Finish));

    for (answer, expected) in [
        (
            Ok(String::new()),
            vec![
                "response Ok(\"Stopped script and detached debugger.\")",
                "busy false",
            ],
        ),
        (
            Ok("OK".to_string()),
            vec!["response Ok(\"OK\")", "busy false"],
        ),
        (
            Err("lost".to_string()),
            vec![
                "log Stop detached local session after debugserver error: lost",
                "response Ok(\"Stopped script and cleared debug session.\")",
                "busy false",
            ],
        ),
    ] {
        worker.begin(attach(3));
        resume(&mut worker, WorkerReply::Connected(Ok(())));
        resume(&mut worker, response(""));
        let step = worker.begin(WorkerCommand::Stop);
        assert_eq!(effects(&step), ["busy true", "release"]);
        assert!(matches!(
            step.action,
            WorkerAction::SendToReleasedSession { command } if command == "D"
        ));
        assert_eq!(worker.active_debug, None);
        let step = resume(&mut worker, WorkerReply::Response(answer));
        assert_eq!(effects(&step), expected);
    }
}

#[test]
fn a_script_goes_on_until_it_is_stopped() {
    assert_eq!(ensure_not_cancelled(false), Ok(()));
    assert_eq!(
        ensure_not_cancelled(true),
        Err("script execution cancelled by stop".to_string())
    );
}

#[test]
fn a_stopped_script_ends_well() {
    let error = "Error: Error converting from js 'script' into type 'string': script execution cancelled by stop\n    at <eval>";
    assert!(is_stop_cancellation_error(error));
    assert!(!is_stop_cancellation_error("script execution cancelled"));
    assert_eq!(script_outcome("n.js", Err(error.to_string())), Ok(()));
    assert_eq!(script_outcome("n.js", Ok(())), Ok(()));
    assert_eq!(
        script_outcome("n.js", Err("boom".to_string())),
        Err("QuickJS script exception in n.js: boom".to_string())
    );
}

#[test]
fn only_a_detaching_is_reported() {
    assert!(matches!(
        answered_command("D", "OK"),
        Some(WorkerEvent::DebugResponse(Ok(text))) if text == "OK"
    ));
    assert!(answered_command("c", "OK").is_none());
    assert!(answered_command("d", "OK").is_none());
}

#[test]
fn scripts_are_announced_and_concluded() {
    assert!(matches!(
        opening_event("n.js"),
        WorkerEvent::Log(line) if line == "Running script: n.js"
    ));
    let events = closing_events(Ok(()));
    assert_eq!(events.len(), 2);
    assert!(matches!(
        &events[0],
        WorkerEvent::Log(line) if line == "Script execution completed"
    ));
    assert!(matches!(&events[1], WorkerEvent::ScriptFinished(Ok(()))));
    let events = closing_events(Err("boom".to_string()));
    assert_eq!(events.len(), 1);
    assert!(matches!(
        &events[0],
        WorkerEvent::ScriptFinished(Err(error)) if error == "boom"
    ));
    assert_eq!(
        prelude_failure("boom"),
        "install JS helper prelude failed: boom"
    );
    assert!(SCRIPT_PRELUDE.contains("globalThis.prepare_memory_region = function"));
}

#[test]
fn acknowledgements_end_after_two_and_a_command() {
    let steps = configure_no_ack_mode();
    assert_eq!(steps.len(), 4);
    assert!(matches!(steps[0], NoAckStep::SendAck));
    assert!(matches!(steps[1], NoAckStep::SendAck));
    assert!(matches!(
        &steps[2],
        NoAckStep::SendCommand { command } if command == "QStartNoAckMode"
    ));
    assert!(matches!(steps[3], NoAckStep::LeaveAckMode));
}

#[test]
fn busy_alternates_over_a_row_of_commands() {
    let mut worker = DeviceWorker::new();
    let mut told = Vec::new();
    let mut note = |step: WorkerStep| {
        for effect in step.effects {
            if let WorkerEffect::Emit(WorkerEvent::Busy(busy)) = effect {
                told.push(busy);
            }
        }
    };
    note(worker.begin(WorkerCommand::RefreshDevices));
    note(resume(&mut worker, WorkerReply::Devices(Ok(vec![]))));
    note(worker.begin(attach(3)));
    note(resume(&mut worker, WorkerReply::Connected(Ok(()))));
    note(resume(&mut worker, response("")));
    note(worker.begin(launch()));
    note(resume(&mut worker, WorkerReply::Launched(Err("no".to_string()))));
    note(worker.begin(WorkerCommand::Stop));
    note(resume(&mut worker, response("")));
    note(worker.begin(WorkerCommand::Stop));
    assert_eq!(
        told,
        [true, false, true, false, true, false, true, false, true, false]
    );
}
