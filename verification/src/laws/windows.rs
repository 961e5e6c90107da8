//! Laws on what the window shows, remembers and asks for.
use vstd::prelude::*;

use crate::controls::joined;
use crate::debugger::{
    app_matches, device_line, has_pid, has_similar_name, has_udid, process_line, process_matches,
    AppView,
};
use crate::device::{
    AppInfoView, CheckStatusView, DeviceInfoView, DeviceStatusView, ProcessInfoView,
    WorkerCommandView, WorkerEventView,
};
use crate::display::{check_words, status_lines, Colour};
use crate::host::{refresh_advice, HostSystem};
use crate::laws::texts::{
    law_keeping_filters, law_number_is_read_from_digits, law_trimming_takes_white_space_at_the_ends,
    unsigned,
};
use crate::lists::lemma_first_at;
use crate::text::{
    ascii_lowercase, decimal, digits_value, is_white_space, lowercase_of, occurs, trimmed,
};

verus! {

// ---------------------------------------------------------------------------------------------
// The start
// ---------------------------------------------------------------------------------------------

/// At the start nothing is listed, selected, entered or running, nothing was logged, and the worker
/// is asked for the devices and for nothing else.
pub proof fn law_window_begins_by_asking_for_the_devices(now: u64)
    ensures
        ({
            let app = AppView::initial(now);
            &&& app.outbox.len() == 1 && app.outbox[0] is RefreshDevices
            &&& app.devices.len() == 0 && app.apps.len() == 0 && app.processes.len() == 0
            &&& app.script_entries.len() == 0 && app.logs.len() == 0
            &&& app.selected_device is None && app.selected_app is None
            &&& app.selected_process is None && app.selected_script is None
            &&& app.app_filter.len() == 0 && app.process_filter.len() == 0
            &&& app.manual_pid.len() == 0
            &&& app.script_name.len() == 0 && app.script_source.len() == 0
            &&& app.device_status is None
            &&& !app.busy && !app.attached && !app.script_running
            &&& !app.has_successful_process_list && !app.has_logged_process_list
            &&& app.last_pid_refresh == now
        }),
{
}

// ---------------------------------------------------------------------------------------------
// Lines
// ---------------------------------------------------------------------------------------------

/// A device is shown by its name, its version where it is known, and its connection.
pub proof fn law_line_of_a_device(device: DeviceInfoView)
    ensures
        device.product_version.len() == 0 ==> device_line(device) == device.name + " ("@
            + device.connection + ")"@,
        device.product_version.len() > 0 ==> device_line(device) == device.name + " OS "@
            + device.product_version + " ("@ + device.connection + ")"@,
{
}

/// A process is shown by its name and its number.
pub proof fn law_line_of_a_process(process: ProcessInfoView)
    ensures
        process_line(process) == process.name + " ("@ + decimal(process.pid as nat) + ")"@,
{
}

/// The selected device is shown by its line; without one it is said that one is to be selected.
pub proof fn law_selected_device_is_shown(app: AppView, index: usize)
    ensures
        app.selected_device == Some(index) && index < app.devices.len()
            ==> app.selected_device_label() == device_line(app.devices[index as int]),
        app.selected_udid() is None ==> app.selected_device_label() == "Select a device"@,
{
}

/// Each light is grey while it is out; lit, the one for being attached is green and the one for a
/// running script amber.
pub proof fn law_lights_tell_what_goes_on(app: AppView)
    ensures
        app.attached ==> app.attached_colour() == (Colour { red: 80, green: 200, blue: 120 }),
        app.script_running ==> app.script_running_colour() == (Colour {
            red: 255,
            green: 196,
            blue: 64,
        }),
        !app.attached ==> app.attached_colour() == (Colour { red: 140, green: 140, blue: 140 }),
        !app.script_running ==> app.script_running_colour() == (Colour {
            red: 140,
            green: 140,
            blue: 140,
        }),
{
}

/// A check that went well is shown as a success and nothing more; one that failed with its error.
pub proof fn law_words_for_a_check(error: Seq<char>)
    ensures
        check_words(CheckStatusView::Success) == "Success"@,
        check_words(CheckStatusView::Failed(error)) == "Failed: "@ + error,
{
}

/// The status of a device is shown in three lines, each with the outcome of its own check; where
/// there is only an error, each of them shows that error.
pub proof fn law_each_check_has_its_line(status: DeviceStatusView, error: Seq<char>)
    ensures
        status_lines(Ok(status)).len() == 3,
        status_lines(Ok(status))[0] == "Wireless Debugging: "@ + check_words(
            status.wireless_debugging,
        ),
        status_lines(Ok(status))[1] == "Developer Mode: "@ + check_words(status.developer_mode),
        status_lines(Ok(status))[2] == "Developer Disk Image: "@ + check_words(
            status.developer_disk_image,
        ),
        status_lines(Err(error)).len() == 3,
        status_lines(Err(error))[0] == "Wireless Debugging: Failed: "@ + error,
        status_lines(Err(error))[1] == "Developer Mode: Failed: "@ + error,
        status_lines(Err(error))[2] == "Developer Disk Image: Failed: "@ + error,
{
}

/// Under the devices stands the status that is known; while it is not, a selected device is said to
/// be checked, and without one there is nothing to say.
pub proof fn law_status_is_shown_once_known(app: AppView)
    ensures
        app.device_status matches Some(status) ==> app.status_text() == status_lines(status),
        app.device_status is None && app.selected_device is Some ==> app.status_text().len() == 1
            && app.status_text()[0] == "Checking wireless debugging, Developer Mode, and DDI..."@,
        app.device_status is None && app.selected_device is None ==> app.status_text().len() == 0,
{
}

/// The selected script is shown by its name, with a word on whether it can be deleted; while a
/// script runs, a line before that says that no other can be selected.
pub proof fn law_selected_script_is_shown(app: AppView)
    ensures
        app.selected_script_entry() matches Some(entry) ==> app.script_label() == entry.name,
        app.selected_script_entry() is None ==> app.script_label() == "No script selected"@,
        app.script_hints().len() == if app.script_running {
            2int
        } else {
            1int
        },
        app.script_running ==> app.script_hints()[0]
            == "Script switching is disabled while a script is running."@,
        (app.selected_script_entry() matches Some(entry) && entry.editable)
            ==> app.script_hints().last() == "Imported scripts can be deleted."@,
        !(app.selected_script_entry() matches Some(entry) && entry.editable)
            ==> app.script_hints().last() == "Built-in scripts cannot be deleted."@,
{
}

/// The log as one text: a line on its own is that line, and one more line stands after a line
/// break.
pub proof fn law_log_is_joined_line_by_line(lines: Seq<Seq<char>>, line: Seq<char>)
    ensures
        joined(Seq::empty()).len() == 0,
        joined(seq![line]) == line,
        lines.len() > 0 ==> joined(lines.push(line)) == joined(lines) + "\n"@ + line,
{
    assert(lines.push(line).drop_last() =~= lines);
}

// ---------------------------------------------------------------------------------------------
// Looking things up
// ---------------------------------------------------------------------------------------------

/// `part` is a part of `text`.
pub open spec fn holds_part(text: Seq<char>, part: Seq<char>) -> bool {
    exists|first: Seq<char>, last: Seq<char>| text == #[trigger] (first + part + last)
}

proof fn lemma_part_occurs(text: Seq<char>, part: Seq<char>)
    ensures
        holds_part(text, part) == occurs(text, part),
{
    if holds_part(text, part) {
        let (first, last) = choose|first: Seq<char>, last: Seq<char>|
            text == #[trigger] (first + part + last);
        crate::laws::texts::law_occurring_is_being_a_part(text, part, first, last);
    }
    if occurs(text, part) {
        crate::laws::texts::law_occurring_is_being_a_part(text, part, text, text);
    }
}

/// The apps that are shown are those of the list, in its order, whose name or bundle identifier has
/// the trimmed filter as a part, all written small.
pub proof fn law_shown_apps_have_the_filter_as_a_part(app: AppView)
    ensures
        app.filtered_apps() == app.apps.filter(
            |shown: AppInfoView|
                holds_part(lowercase_of(shown.name), lowercase_of(trimmed(app.app_filter)))
                    || holds_part(
                    lowercase_of(shown.bundle_id),
                    lowercase_of(trimmed(app.app_filter)),
                ),
        ),
{
    let filter = lowercase_of(trimmed(app.app_filter));
    let wanted = |shown: AppInfoView|
        holds_part(lowercase_of(shown.name), filter) || holds_part(
            lowercase_of(shown.bundle_id),
            filter,
        );
    law_keeping_filters(app.apps, app_matches(filter));
    assert forall|shown: AppInfoView| #[trigger] wanted(shown) == app_matches(filter)(shown) by {
        lemma_part_occurs(lowercase_of(shown.name), filter);
        lemma_part_occurs(lowercase_of(shown.bundle_id), filter);
    }
    assert(wanted =~= app_matches(filter));
    if filter.len() == 0 {
        assert forall|shown: AppInfoView| #[trigger] wanted(shown) by {
            let name = lowercase_of(shown.name);
            assert(name =~= name + filter + Seq::<char>::empty());
        }
        lemma_all_kept(app.apps, wanted);
    }
}

proof fn lemma_all_kept<T>(items: Seq<T>, holds: spec_fn(T) -> bool)
    requires
        forall|item: T| #[trigger] holds(item),
    ensures
        items.filter(holds) == items,
    decreases items.len(),
{
    reveal(Seq::filter);
    if items.len() > 0 {
        lemma_all_kept(items.drop_last(), holds);
        assert(items =~= items.drop_last().push(items.last()));
    } else {
        assert(items.filter(holds) =~= items);
    }
}

/// The processes that are shown are those of the list, in its order, whose name, written small, or
/// whose number has the trimmed filter, written small, as a part.
pub proof fn law_shown_processes_have_the_filter_as_a_part(app: AppView)
    ensures
        app.filtered_processes() == app.processes.filter(
            |shown: ProcessInfoView|
                holds_part(lowercase_of(shown.name), lowercase_of(trimmed(app.process_filter)))
                    || holds_part(
                    decimal(shown.pid as nat),
                    lowercase_of(trimmed(app.process_filter)),
                ),
        ),
{
    let filter = lowercase_of(trimmed(app.process_filter));
    let wanted = |shown: ProcessInfoView|
        holds_part(lowercase_of(shown.name), filter) || holds_part(
            decimal(shown.pid as nat),
            filter,
        );
    law_keeping_filters(app.processes, process_matches(filter));
    assert forall|shown: ProcessInfoView| #[trigger]
        wanted(shown) == process_matches(filter)(shown) by {
        lemma_part_occurs(lowercase_of(shown.name), filter);
        lemma_part_occurs(decimal(shown.pid as nat), filter);
    }
    assert(wanted =~= process_matches(filter));
    if filter.len() == 0 {
        assert forall|shown: ProcessInfoView| #[trigger] wanted(shown) by {
            let name = lowercase_of(shown.name);
            assert(name =~= name + filter + Seq::<char>::empty());
        }
        lemma_all_kept(app.processes, wanted);
    }
}

/// What is selected is what stands at the selected position; beyond the end of a list nothing is
/// selected.
pub proof fn law_selection_is_by_position(app: AppView, index: usize)
    ensures
        app.selected_device is None ==> app.selected_udid() is None,
        app.selected_device == Some(index) && index < app.devices.len() ==> app.selected_udid()
            == Some(app.devices[index as int].udid),
        app.selected_device == Some(index) && index >= app.devices.len()
            ==> app.selected_udid() is None,
        app.selected_app is None ==> app.selected_bundle_id() is None,
        app.selected_app == Some(index) && index < app.filtered_apps().len()
            ==> app.selected_bundle_id() == Some(app.filtered_apps()[index as int].bundle_id),
        app.selected_app == Some(index) && index >= app.filtered_apps().len()
            ==> app.selected_bundle_id() is None,
        app.selected_script is None ==> app.selected_script_entry() is None,
        app.selected_script == Some(index) && index < app.script_entries.len()
            ==> app.selected_script_entry() == Some(app.script_entries[index as int]),
        app.selected_script == Some(index) && index >= app.script_entries.len()
            ==> app.selected_script_entry() is None,
        app.selected_script_is_editable() <==> exists|at: usize|
            app.selected_script == Some(at) && at < app.script_entries.len()
                && (#[trigger] app.script_entries[at as int]).editable,
{
    if app.selected_script_is_editable() {
        let at = app.selected_script->0;
        assert(app.script_entries[at as int].editable);
    }
}

/// The script to run is the loaded source under the trimmed name; a blank name is none.
pub proof fn law_script_to_run_has_a_name(app: AppView)
    ensures
        trimmed(app.script_name).len() == 0 ==> app.current_script() is None,
        trimmed(app.script_name).len() > 0 ==> (app.current_script() matches Some((name, source))
            && name == trimmed(app.script_name) && source == app.script_source),
{
}

/// White space, digits and white space again enter the number that the digits give, as long as it
/// fits in 32 bits.
pub proof fn law_number_is_entered_in_digits(
    app: AppView,
    before: Seq<char>,
    digits: Seq<char>,
    after: Seq<char>,
)
    requires
        forall|i: int| 0 <= i < before.len() ==> is_white_space(#[trigger] before[i]),
        forall|i: int| 0 <= i < after.len() ==> is_white_space(#[trigger] after[i]),
        digits.len() > 0,
        forall|i: int| 0 <= i < digits.len() ==> 0x30 <= (#[trigger] digits[i]) as int <= 0x39,
        app.manual_pid == before + digits + after,
    ensures
        digits_value(digits) <= 0xffff_ffff ==> app.entered_pid() == Some(
            digits_value(digits) as u32,
        ),
        digits_value(digits) > 0xffff_ffff ==> app.entered_pid() is None,
{
    let text = app.manual_pid;
    law_number_is_read_from_digits(digits);
    assert(!is_white_space(digits[0]));
    assert(!is_white_space(digits.last()));
    law_trimming_takes_white_space_at_the_ends(text);
    let inner = trimmed(text);
    let at = choose|at: int|
        0 <= at <= text.len() - inner.len() && inner == #[trigger] text.subrange(
            at,
            at + inner.len(),
        ) && (forall|i: int| 0 <= i < at ==> is_white_space(#[trigger] text[i])) && (forall|i: int|
            at + inner.len() <= i < text.len() ==> is_white_space(#[trigger] text[i]));
    let first = before.len() as int;
    let last = first + digits.len() - 1;
    assert(text[first] == digits[0]);
    assert(text[last] == digits.last());
    assert(at <= first && last < at + inner.len());
    assert(inner[0] == text[at]);
    assert(inner.last() == text[at + inner.len() - 1]);
    if at < first {
        assert(text[at] == before[at]);
    }
    if last + 1 < at + inner.len() {
        assert(text[at + inner.len() - 1] == after[at + inner.len() - 1 - last - 1]);
    }
    assert(inner =~= digits);
}

/// A number that was entered is the value of the digits that the trimmed text is made of, after a
/// plus sign or not.
pub proof fn law_entered_number_is_that_of_its_digits(app: AppView)
    ensures
        app.entered_pid() matches Some(pid) ==> digits_value(unsigned(trimmed(app.manual_pid)))
            == pid,
{
    law_number_is_read_from_digits(trimmed(app.manual_pid));
}

/// A script is found by its name without regard to the case of `A` to `Z`, the first such one.
pub proof fn law_script_is_found_by_name(app: AppView, name: Seq<char>, i: int)
    requires
        app.script_entries.len() <= usize::MAX,
    ensures
        app.script_named(name) matches Some(at) ==> at < app.script_entries.len()
            && ascii_lowercase(app.script_entries[at as int].name) == ascii_lowercase(name),
        0 <= i < app.script_entries.len() && ascii_lowercase(app.script_entries[i].name)
            == ascii_lowercase(name) ==> (app.script_named(name) matches Some(at) && at <= i),
{
    lemma_first_at(app.script_entries, has_similar_name(name));
}

// ---------------------------------------------------------------------------------------------
// Asking the worker
// ---------------------------------------------------------------------------------------------

/// A command waits behind those that were sent before it. A script is taken to run once one is
/// asked for, and everything to have ended once a stop is; no other command changes that, and
/// nothing else changes.
pub proof fn law_sending_queues_the_command(app: AppView, command: WorkerCommandView)
    ensures
        ({
            let after = app.send(command);
            &&& after.outbox == app.outbox + seq![command]
            &&& after.script_running == if command is LaunchAndAttachAndRunScript
                || command is AttachAndRun {
                true
            } else {
                app.script_running && !(command is Stop)
            }
            &&& after.attached == (app.attached && !(command is Stop))
            &&& after == AppView {
                outbox: after.outbox,
                script_running: after.script_running,
                attached: after.attached,
                ..app
            }
        }),
{
    assert(app.outbox.push(command) =~= app.outbox + seq![command]);
}

/// A line is logged behind those before it, and nothing else changes.
pub proof fn law_logging_adds_a_line(app: AppView, line: Seq<char>)
    ensures
        app.log(line).logs == app.logs + seq![line],
        app.log(line) == (AppView { logs: app.log(line).logs, ..app }),
{
    assert(app.logs.push(line) =~= app.logs + seq![line]);
}

/// Copying the log is said in it, and nothing else changes.
pub proof fn law_copying_is_logged(app: AppView)
    ensures
        app.copy_logs() == (AppView { logs: app.logs.push("Copied logs to clipboard"@), ..app }),
{
}

/// Clearing the log empties it, and nothing else changes.
pub proof fn law_clearing_empties_the_log(app: AppView)
    ensures
        app.clear_logs().logs.len() == 0,
        app.clear_logs() == (AppView { logs: app.clear_logs().logs, ..app }),
{
}

/// Without the worker no script runs, which is said in the log; nothing else changes.
pub proof fn law_without_a_worker_nothing_runs(app: AppView)
    ensures
        app.worker_unavailable() == (AppView {
            script_running: false,
            logs: app.logs.push("Worker is unavailable"@),
            ..app
        }),
{
}

/// Selecting a listed device forgets what was known of the last one, begins its time anew and asks
/// for the apps of that device; nothing else changes.
pub proof fn law_selecting_a_device_asks_for_its_apps(app: AppView, index: usize, now: u64)
    requires
        index < app.devices.len(),
    ensures
        app.select_device(index, now) == (AppView {
            selected_device: Some(index),
            apps: Seq::empty(),
            processes: Seq::empty(),
            selected_app: None,
            selected_process: None,
            device_status: None,
            has_successful_process_list: false,
            has_logged_process_list: false,
            last_pid_refresh: now,
            outbox: app.outbox.push(
                WorkerCommandView::ListApps { udid: app.devices[index as int].udid },
            ),
            ..app
        }),
{
}

/// Asking for the devices and stopping each ask the worker for just that; a stop is taken to have
/// ended everything at once. Nothing else changes.
pub proof fn law_devices_and_stops_are_asked_for(app: AppView)
    ensures
        app.refresh_devices() == (AppView {
            outbox: app.outbox.push(WorkerCommandView::RefreshDevices),
            ..app
        }),
        app.stop() == (AppView {
            outbox: app.outbox.push(WorkerCommandView::Stop),
            script_running: false,
            attached: false,
            ..app
        }),
        !app.stop().can_stop(),
{
}

/// Refreshing asks for the apps of the selected device; without one it is said that there is none.
pub proof fn law_refreshing_asks_for_the_selected_device(app: AppView)
    ensures
        app.selected_udid() matches Some(udid) ==> app.refresh_selected_device_lists() == (
        AppView { outbox: app.outbox.push(WorkerCommandView::ListApps { udid }), ..app }),
        app.selected_udid() is None ==> app.refresh_selected_device_lists() == (AppView {
            logs: app.logs.push("Select a device first"@),
            ..app
        }),
{
}

/// The processes are asked for anew three seconds after they were last asked for or listed, no
/// sooner, if the worker is free, a device is selected and the last list of them could be had.
pub proof fn law_processes_are_asked_for_every_three_seconds(app: AppView, now: u64)
    ensures
        ({
            let due = !app.busy && app.selected_device is Some && app.has_successful_process_list
                && now >= app.last_pid_refresh + 3_000_000_000;
            &&& due && app.selected_udid() is Some ==> app.maybe_refresh_processes(now) == (
            AppView {
                last_pid_refresh: now,
                outbox: app.outbox.push(
                    WorkerCommandView::ListProcesses { udid: app.selected_udid()->0 },
                ),
                ..app
            })
            &&& !due || app.selected_udid() is None ==> app.maybe_refresh_processes(now) == app
        }),
{
}

/// Asking for the processes asks the selected device, if there is one.
pub proof fn law_processes_of_the_selected_device_are_asked_for(app: AppView, now: u64)
    ensures
        app.selected_udid() matches Some(udid) ==> app.refresh_processes(now) == (AppView {
            last_pid_refresh: now,
            outbox: app.outbox.push(WorkerCommandView::ListProcesses { udid }),
            ..app
        }),
        app.selected_udid() is None ==> app.refresh_processes(now) == app,
{
}

/// Launching sends the selected app and device, and with a script its name and source; where one of
/// them is missing, nothing happens.
pub proof fn law_launching_sends_what_is_selected(app: AppView)
    ensures
        app.can_launch() <==> app.selected_udid() is Some && app.selected_bundle_id() is Some,
        app.can_launch_and_run() <==> app.selected_udid() is Some
            && app.selected_bundle_id() is Some && app.current_script() is Some,
        app.can_launch() ==> app.launch() == (AppView {
            outbox: app.outbox.push(
                WorkerCommandView::LaunchAndAttach {
                    udid: app.selected_udid()->0,
                    bundle_id: app.selected_bundle_id()->0,
                },
            ),
            ..app
        }),
        !app.can_launch() ==> app.launch() == app,
        app.can_launch_and_run() ==> app.launch_and_run() == (AppView {
            outbox: app.outbox.push(
                WorkerCommandView::LaunchAndAttachAndRunScript {
                    udid: app.selected_udid()->0,
                    bundle_id: app.selected_bundle_id()->0,
                    name: (app.current_script()->0).0,
                    source: (app.current_script()->0).1,
                },
            ),
            script_running: true,
            ..app
        }),
        !app.can_launch_and_run() ==> app.launch_and_run() == app,
{
}

/// Attaching sends the entered number and the selected device, and with a script its name and
/// source; where one of them is missing, the first that is gets a line in the log and nothing else
/// happens.
pub proof fn law_attaching_sends_what_is_entered(app: AppView)
    ensures
        app.can_attach() <==> app.selected_udid() is Some && app.entered_pid() is Some,
        app.can_attach_and_run() <==> app.selected_udid() is Some && app.entered_pid() is Some
            && app.current_script() is Some,
        app.can_attach() ==> app.attach() == (AppView {
            outbox: app.outbox.push(
                WorkerCommandView::Attach {
                    udid: app.selected_udid()->0,
                    pid: app.entered_pid()->0,
                },
            ),
            ..app
        }),
        app.can_attach_and_run() ==> app.attach_and_run() == (AppView {
            outbox: app.outbox.push(
                WorkerCommandView::AttachAndRun {
                    udid: app.selected_udid()->0,
                    pid: app.entered_pid()->0,
                    name: (app.current_script()->0).0,
                    source: (app.current_script()->0).1,
                },
            ),
            script_running: true,
            ..app
        }),
        app.selected_udid() is None ==> app.attach() == (AppView {
            logs: app.logs.push("Select a device first"@),
            ..app
        }) && app.attach_and_run() == app.attach(),
        app.selected_udid() is Some && app.entered_pid() is None ==> app.attach() == (AppView {
            logs: app.logs.push("Enter a numeric PID"@),
            ..app
        }) && app.attach_and_run() == app.attach(),
        app.can_attach() && app.current_script() is None ==> app.attach_and_run() == (AppView {
            logs: app.logs.push("Select or name a script first"@),
            ..app
        }),
{
}

/// What is attached or runs can be stopped. While a script runs none can be imported, selected or
/// deleted, and only an editable script can be deleted at all.
pub proof fn law_running_script_is_left_alone(app: AppView)
    ensures
        app.can_stop() <==> app.attached || app.script_running,
        app.can_import_script() <==> !app.script_running,
        app.can_switch_script() <==> !app.script_running,
        app.can_delete_script() <==> !app.script_running && (
        app.selected_script_entry() matches Some(entry) && entry.editable),
{
}

/// The text of a number is kept as it was entered, and the process is selected that it names.
pub proof fn law_entered_process_is_selected(app: AppView, text: Seq<char>)
    ensures
        ({
            let after = app.edit_manual_pid(text);
            &&& after.manual_pid == text
            &&& after.selected_process == after.entered_pid()
            &&& after == AppView {
                manual_pid: text,
                selected_process: after.selected_process,
                ..app
            }
        }),
{
}

// ---------------------------------------------------------------------------------------------
// Hearing from the worker
// ---------------------------------------------------------------------------------------------

/// What the worker tells of itself is remembered, and nothing else changes.
pub proof fn law_window_is_as_busy_as_the_worker(
    app: AppView,
    busy: bool,
    now: u64,
    system: HostSystem,
)
    ensures
        app.handle_event(WorkerEventView::Busy(busy), now, system) == (AppView { busy, ..app }),
{
}

/// The listed devices are shown. A selected device that is still listed stays selected and nothing
/// else changes; otherwise the first is selected as if it had been chosen, and without devices none
/// is.
pub proof fn law_listed_devices_are_shown(
    app: AppView,
    devices: Seq<DeviceInfoView>,
    now: u64,
    system: HostSystem,
)
    requires
        devices.len() <= usize::MAX,
    ensures
        ({
            let after = app.handle_event(WorkerEventView::Devices(Ok(devices)), now, system);
            let listed = app.selected_udid() is Some && exists|i: int|
                0 <= i < devices.len() && (#[trigger] devices[i]).udid == app.selected_udid()->0;
            &&& after.devices == devices
            &&& listed ==> after.selected_udid() == app.selected_udid() && after == AppView {
                devices,
                selected_device: after.selected_device,
                ..app
            }
            &&& !listed && devices.len() == 0 ==> after == AppView {
                devices,
                selected_device: None,
                ..app
            }
            &&& !listed && devices.len() > 0 ==> after == AppView { devices, ..app }.select_device(
                0,
                now,
            )
        }),
{
    if app.selected_udid() is Some {
        lemma_first_at(devices, has_udid(app.selected_udid()->0));
    }
    let after = app.handle_event(WorkerEventView::Devices(Ok(devices)), now, system);
    let listed = AppView { devices, selected_device: app.device_in(devices), ..app };
    if listed.selected_device is None && devices.len() > 0 {
        law_selecting_a_device_asks_for_its_apps(listed, 0, now);
        law_selecting_a_device_asks_for_its_apps(AppView { devices, ..app }, 0, now);
        assert(after =~= AppView { devices, ..app }.select_device(0, now));
    }
}

/// A list that could not be had is said in the log with its error, and nothing that is listed
/// changes; the processes are no longer asked for by themselves.
pub proof fn law_failed_lists_are_logged(
    app: AppView,
    error: Seq<char>,
    now: u64,
    system: HostSystem,
)
    ensures
        app.handle_event(WorkerEventView::Devices(Err(error)), now, system) == (AppView {
            logs: app.logs.push(
                "Device refresh failed: "@ + error + refresh_advice(error, system),
            ),
            ..app
        }),
        app.handle_event(WorkerEventView::Apps(Err(error)), now, system) == (AppView {
            logs: app.logs.push("App listing failed: "@ + error),
            ..app
        }),
        app.handle_event(WorkerEventView::Processes(Err(error)), now, system) == (AppView {
            logs: app.logs.push("Process listing failed: "@ + error),
            has_successful_process_list: false,
            ..app
        }),
{
    let prefix = "Device refresh failed: "@;
    let advice = refresh_advice(error, system);
    assert(prefix + (error + advice) =~= prefix + error + advice);
}

/// The status, the apps and the processes of a device are shown as they were listed. New apps are
/// counted in the log and none of them is selected; a selected process stays selected exactly if it
/// still runs, and only the first list of processes is counted in the log.
pub proof fn law_listed_things_are_shown(
    app: AppView,
    status: DeviceStatusView,
    apps: Seq<AppInfoView>,
    processes: Seq<ProcessInfoView>,
    now: u64,
    system: HostSystem,
)
    requires
        processes.len() <= usize::MAX,
    ensures
        app.handle_event(WorkerEventView::DeviceStatus(status), now, system) == (AppView {
            device_status: Some(Ok(status)),
            ..app
        }),
        app.handle_event(WorkerEventView::Apps(Ok(apps)), now, system) == (AppView {
            apps,
            selected_app: None,
            logs: app.logs.push(
                "Loaded "@ + decimal(apps.len()) + " app(s) with get-task-allow"@,
            ),
            ..app
        }),
        ({
            let after = app.handle_event(WorkerEventView::Processes(Ok(processes)), now, system);
            let runs = app.selected_process is Some && exists|i: int|
                0 <= i < processes.len() && (#[trigger] processes[i]).pid
                    == app.selected_process->0;
            after == AppView {
                processes,
                selected_process: if runs {
                    app.selected_process
                } else {
                    None
                },
                has_successful_process_list: true,
                has_logged_process_list: true,
                last_pid_refresh: now,
                logs: if app.has_logged_process_list {
                    app.logs
                } else {
                    app.logs.push(
                        "Loaded "@ + decimal(processes.len()) + " running process(es)"@,
                    )
                },
                ..app
            }
        }),
{
    if app.selected_process is Some {
        lemma_first_at(processes, has_pid(app.selected_process->0));
    }
}

/// A launched process is selected and its number entered; being attached is remembered until the
/// debugger answers otherwise. Each of these is said in the log, and nothing else changes.
pub proof fn law_debugging_is_followed(
    app: AppView,
    pid: u32,
    text: Seq<char>,
    now: u64,
    system: HostSystem,
)
    ensures
        app.handle_event(WorkerEventView::Launched(Ok(pid)), now, system) == (AppView {
            manual_pid: decimal(pid as nat),
            selected_process: Some(pid),
            logs: app.logs.push("Launched process pid="@ + decimal(pid as nat)),
            ..app
        }),
        app.handle_event(WorkerEventView::Launched(Err(text)), now, system) == (AppView {
            logs: app.logs.push("Launch failed: "@ + text),
            ..app
        }),
        app.handle_event(WorkerEventView::Attached(Ok(text)), now, system) == (AppView {
            attached: true,
            logs: app.logs.push("Attached: "@ + text),
            ..app
        }),
        app.handle_event(WorkerEventView::Attached(Err(text)), now, system) == (AppView {
            script_running: false,
            logs: app.logs.push("Attach failed: "@ + text),
            ..app
        }),
        app.handle_event(WorkerEventView::DebugResponse(Ok(text)), now, system) == (AppView {
            attached: false,
            logs: app.logs.push("debugserver: "@ + text),
            ..app
        }),
        app.handle_event(WorkerEventView::DebugResponse(Err(text)), now, system) == (AppView {
            logs: app.logs.push("Command failed: "@ + text),
            ..app
        }),
        app.handle_event(WorkerEventView::Log(text), now, system) == (AppView {
            logs: app.logs.push(text),
            ..app
        }),
{
}

/// A script that is over no longer runs, however it ended, which is said in the log.
pub proof fn law_finished_script_no_longer_runs(
    app: AppView,
    error: Seq<char>,
    now: u64,
    system: HostSystem,
)
    ensures
        app.handle_event(WorkerEventView::ScriptFinished(Ok(())), now, system) == (AppView {
            script_running: false,
            logs: app.logs.push("Script finished"@),
            ..app
        }),
        app.handle_event(WorkerEventView::ScriptFinished(Err(error)), now, system) == (AppView {
            script_running: false,
            logs: app.logs.push("Script failed: "@ + error),
            ..app
        }),
{
}

} // verus!
