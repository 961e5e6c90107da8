//! Laws on what devices answer and on what is listed of them.
use vstd::prelude::*;

use crate::device::{
    developer_mode_status, inspected, status_for, AppInfo, AppInfoView, CheckStatusView,
    DeviceChecks, ProcessInfo, ProcessInfoView,
};
use crate::disk_image::{after_answer, after_counting, after_mounting, ImageActionView};
use crate::host::{refresh_advice, scripts_folder, support_folder, HostFolders, HostSystem};
use crate::laws::texts::law_sorting_is_a_stable_rearrangement;
use crate::listing::{
    app_entry, app_records, debuggable_apps, device_entries, device_entry, disconnected,
    law_only_debuggable_apps_are_listed, name_of_process, process_entries, DeviceReport,
    LockdownAnswers, ProcessToken,
};
use crate::order::{law_sort_keeps_items, sorted_stably, text_at_most, Ranked};
use crate::property_list::{
    allows_task_port, boolean_in, entry, own_name, plist_of, text_in, unsigned_in, Plist,
};
use crate::text::{lowercase_of, occurs, option_view};

verus! {

// ---------------------------------------------------------------------------------------------
// Property lists
// ---------------------------------------------------------------------------------------------

/// Looking under a key finds what a dictionary holds there, and nothing in what is no dictionary.
pub proof fn law_entries_are_found_under_their_keys(
    entries: Map<Seq<char>, Plist>,
    key: Seq<char>,
    held: Plist,
    other: Plist,
)
    requires
        !(other is Dictionary),
    ensures
        entry(Plist::Dictionary(entries.insert(key, held)), key) == Some(held),
        entry(Plist::Dictionary(entries.remove(key)), key) is None,
        entry(other, key) is None,
{
}

/// Each kind of value is taken as what it is and as nothing else; an integer only where it lies
/// within 64 bits and has no sign.
pub proof fn law_values_are_taken_as_what_they_are(
    truth: bool,
    text: Seq<char>,
    number: int,
    entries: Map<Seq<char>, Plist>,
)
    ensures
        boolean_in(Plist::Boolean(truth)) == Some(truth),
        boolean_in(Plist::Text(text)) is None,
        boolean_in(Plist::Integer(number)) is None,
        boolean_in(Plist::Dictionary(entries)) is None,
        boolean_in(Plist::Other) is None,
        text_in(Plist::Text(text)) == Some(text),
        text_in(Plist::Boolean(truth)) is None,
        text_in(Plist::Integer(number)) is None,
        text_in(Plist::Dictionary(entries)) is None,
        text_in(Plist::Other) is None,
        0 <= number <= 0xffff_ffff_ffff_ffff ==> unsigned_in(Plist::Integer(number)) == Some(
            number as u64,
        ),
        !(0 <= number <= 0xffff_ffff_ffff_ffff) ==> unsigned_in(Plist::Integer(number)) is None,
        unsigned_in(Plist::Boolean(truth)) is None,
        unsigned_in(Plist::Text(text)) is None,
        unsigned_in(Plist::Dictionary(entries)) is None,
        unsigned_in(Plist::Other) is None,
{
}

/// An app may be debugged exactly where it is a dictionary that holds, under `Entitlements`, a
/// dictionary that holds, under `get-task-allow`, the truth value true.
pub proof fn law_only_a_true_entitlement_allows(app: Plist)
    ensures
        allows_task_port(app) <==> (app matches Plist::Dictionary(entries)
            && entries.contains_key("Entitlements"@) && (
        entries["Entitlements"@] matches Plist::Dictionary(entitlements)
            && entitlements.contains_key("get-task-allow"@) && entitlements["get-task-allow"@]
            == Plist::Boolean(true))),
{
}

/// Without the entitlement, with a false one or with one that is no truth value, an app may not be
/// debugged.
pub proof fn law_no_other_entitlement_allows(
    entries: Map<Seq<char>, Plist>,
    entitlements: Map<Seq<char>, Plist>,
    flag: Plist,
)
    ensures
        ({
            let with = |inner: Plist| Plist::Dictionary(entries.insert("Entitlements"@, inner));
            &&& !allows_task_port(
                with(Plist::Dictionary(entitlements.remove("get-task-allow"@))),
            )
            &&& allows_task_port(
                with(Plist::Dictionary(entitlements.insert("get-task-allow"@, flag))),
            ) <==> flag == Plist::Boolean(true)
            &&& !(flag is Dictionary) ==> !allows_task_port(with(flag))
            &&& !allows_task_port(Plist::Dictionary(entries.remove("Entitlements"@)))
            &&& !(flag is Dictionary) ==> !allows_task_port(flag)
        }),
{
}

/// An app is called by its display name; without one, by its bundle name; where the name that
/// counts is no text, or there is none, it has no name of its own.
pub proof fn law_display_name_goes_before_bundle_name(
    entries: Map<Seq<char>, Plist>,
    name: Seq<char>,
    other: Plist,
)
    requires
        !(other is Text),
    ensures
        ({
            let display = "CFBundleDisplayName"@;
            let bundle = "CFBundleName"@;
            &&& own_name(Plist::Dictionary(entries.insert(display, Plist::Text(name)))) == Some(
                name,
            )
            &&& own_name(Plist::Dictionary(entries.insert(display, other))) is None
            &&& own_name(
                Plist::Dictionary(entries.insert(bundle, Plist::Text(name)).remove(display)),
            ) == Some(name)
            &&& own_name(
                Plist::Dictionary(entries.insert(bundle, other).remove(display)),
            ) is None
            &&& own_name(Plist::Dictionary(entries.remove(bundle).remove(display))) is None
            &&& !(other is Dictionary) ==> own_name(other) is None
        }),
{
    reveal_strlit("CFBundleDisplayName");
    reveal_strlit("CFBundleName");
    assert("CFBundleDisplayName"@.len() != "CFBundleName"@.len());
}

// ---------------------------------------------------------------------------------------------
// Lists
// ---------------------------------------------------------------------------------------------

/// The list of apps holds an app exactly where the device reports it with a true entitlement, under
/// its own name or else under its bundle identifier.
pub proof fn law_listed_apps_are_the_debuggable_ones(
    records: Seq<(Seq<char>, Plist)>,
    infos: Seq<AppInfoView>,
    bundle_id: Seq<char>,
    name: Seq<char>,
)
    requires
        sorted_stably::<AppInfo>(debuggable_apps(records), infos),
    ensures
        infos.contains(AppInfoView { bundle_id, name }) <==> exists|i: int|
            0 <= i < records.len() && (#[trigger] records[i]).0 == bundle_id && allows_task_port(
                records[i].1,
            ) && (own_name(records[i].1) == Some(name) || (own_name(records[i].1) is None && name
                == bundle_id)),
        infos.len() <= records.len(),
{
    let wanted = AppInfoView { bundle_id, name };
    law_only_debuggable_apps_are_listed(records, infos);
    law_sorting_is_a_stable_rearrangement::<AppInfo>(debuggable_apps(records), infos);
    lemma_no_more_apps_than_records(records);
    if exists|i: int|
        0 <= i < records.len() && (#[trigger] records[i]).0 == bundle_id && allows_task_port(
            records[i].1,
        ) && (own_name(records[i].1) == Some(name) || (own_name(records[i].1) is None && name
            == bundle_id)) {
        let i = choose|i: int|
            0 <= i < records.len() && (#[trigger] records[i]).0 == bundle_id && allows_task_port(
                records[i].1,
            ) && (own_name(records[i].1) == Some(name) || (own_name(records[i].1) is None && name
                == bundle_id));
        assert(app_entry(records[i]) == wanted);
    }
}

/// Of the apps that a device reports, as it reports them, the list holds the bundle identifier of
/// one exactly where its entitlements hold a true `get-task-allow`: an app without the key, or with
/// a false one, is not listed.
pub proof fn law_reported_apps_are_listed_by_their_entitlement(
    apps: Seq<(String, plist::Value)>,
    infos: Seq<AppInfoView>,
    bundle_id: Seq<char>,
)
    requires
        sorted_stably::<AppInfo>(debuggable_apps(app_records(apps)), infos),
    ensures
        (exists|k: int| 0 <= k < infos.len() && (#[trigger] infos[k]).bundle_id == bundle_id)
            <==> exists|i: int|
            0 <= i < apps.len() && (#[trigger] apps[i]).0@ == bundle_id && (plist_of(
                apps[i].1,
            ) matches Plist::Dictionary(entries) && entries.contains_key("Entitlements"@) && (
            entries["Entitlements"@] matches Plist::Dictionary(entitlements)
                && entitlements.contains_key("get-task-allow"@) && entitlements["get-task-allow"@]
                == Plist::Boolean(true))),
{
    let records = app_records(apps);
    if exists|k: int| 0 <= k < infos.len() && (#[trigger] infos[k]).bundle_id == bundle_id {
        let k = choose|k: int| 0 <= k < infos.len() && (#[trigger] infos[k]).bundle_id == bundle_id;
        law_listed_apps_are_the_debuggable_ones(records, infos, bundle_id, infos[k].name);
        assert(infos.contains(infos[k]));
        let i = choose|i: int|
            0 <= i < records.len() && (#[trigger] records[i]).0 == bundle_id && allows_task_port(
                records[i].1,
            );
        assert(apps[i].0@ == bundle_id);
        law_only_a_true_entitlement_allows(records[i].1);
    }
    if exists|i: int|
        0 <= i < apps.len() && (#[trigger] apps[i]).0@ == bundle_id && allows_task_port(
            plist_of(apps[i].1),
        ) {
        let i = choose|i: int|
            0 <= i < apps.len() && (#[trigger] apps[i]).0@ == bundle_id && allows_task_port(
                plist_of(apps[i].1),
            );
        let name = app_entry(records[i]).name;
        assert(records[i].0 == bundle_id);
        law_listed_apps_are_the_debuggable_ones(records, infos, bundle_id, name);
        let k = choose|k: int|
            0 <= k < infos.len() && infos[k] == AppInfoView { bundle_id, name };
        assert(infos[k].bundle_id == bundle_id);
    }
}

/// Every app that may be debugged is listed once for each time that it is reported: with one more
/// such record the list is one longer, with another record it is as long as before.
pub proof fn law_each_record_counts_once(
    records: Seq<(Seq<char>, Plist)>,
    record: (Seq<char>, Plist),
)
    ensures
        debuggable_apps(records.push(record)) == (if allows_task_port(record.1) {
            debuggable_apps(records).push(app_entry(record))
        } else {
            debuggable_apps(records)
        }),
        debuggable_apps(Seq::empty()).len() == 0,
{
    assert(records.push(record).drop_last() =~= records);
}

proof fn lemma_no_more_apps_than_records(records: Seq<(Seq<char>, Plist)>)
    ensures
        debuggable_apps(records).len() <= records.len(),
    decreases records.len(),
{
    if records.len() > 0 {
        lemma_no_more_apps_than_records(records.drop_last());
    }
}

/// Of two listed apps the first has the smaller lowercase name, or the same and no greater bundle
/// identifier.
pub proof fn law_apps_stand_by_name_and_bundle(
    records: Seq<(Seq<char>, Plist)>,
    infos: Seq<AppInfoView>,
    i: int,
    j: int,
)
    requires
        sorted_stably::<AppInfo>(debuggable_apps(records), infos),
        0 <= i < j < infos.len(),
    ensures
        text_at_most(lowercase_of(infos[i].name), lowercase_of(infos[j].name)),
        lowercase_of(infos[i].name) == lowercase_of(infos[j].name) ==> text_at_most(
            infos[i].bundle_id,
            infos[j].bundle_id,
        ),
{
    law_sorting_is_a_stable_rearrangement::<AppInfo>(debuggable_apps(records), infos);
    assert(AppInfo::ranks(infos[i], infos[j]));
    crate::order::lemma_text_total(lowercase_of(infos[i].name), lowercase_of(infos[i].name));
}

/// Of two listed processes the first has the smaller lowercase name, or the same and no greater
/// number.
pub proof fn law_processes_stand_by_name_and_number(
    tokens: Seq<ProcessToken>,
    infos: Seq<ProcessInfoView>,
    i: int,
    j: int,
)
    requires
        sorted_stably::<ProcessInfo>(process_entries(tokens), infos),
        0 <= i < j < infos.len(),
    ensures
        text_at_most(lowercase_of(infos[i].name), lowercase_of(infos[j].name)),
        lowercase_of(infos[i].name) == lowercase_of(infos[j].name) ==> infos[i].pid <= infos[j].pid,
{
    law_sorting_is_a_stable_rearrangement::<ProcessInfo>(process_entries(tokens), infos);
    assert(ProcessInfo::ranks(infos[i], infos[j]));
    crate::order::lemma_text_total(lowercase_of(infos[i].name), lowercase_of(infos[i].name));
}

/// All reported processes are listed and no others, each with its number and its executable's
/// name.
pub proof fn law_every_process_is_listed(
    tokens: Seq<ProcessToken>,
    infos: Seq<ProcessInfoView>,
    pid: u32,
    name: Seq<char>,
)
    requires
        sorted_stably::<ProcessInfo>(process_entries(tokens), infos),
    ensures
        infos.len() == tokens.len(),
        infos.contains(ProcessInfoView { pid, name }) <==> exists|i: int|
            0 <= i < tokens.len() && (#[trigger] tokens[i]).pid == pid && name_of_process(
                option_view(tokens[i].executable_url),
            ) == name,
{
    let entries = process_entries(tokens);
    let wanted = ProcessInfoView { pid, name };
    law_sorting_is_a_stable_rearrangement::<ProcessInfo>(entries, infos);
    law_sort_keeps_items::<ProcessInfo>(entries, infos);
    if entries.contains(wanted) {
        let i = choose|i: int| 0 <= i < entries.len() && entries[i] == wanted;
        assert(tokens[i].pid == pid);
    }
    if exists|i: int|
        0 <= i < tokens.len() && (#[trigger] tokens[i]).pid == pid && name_of_process(
            option_view(tokens[i].executable_url),
        ) == name {
        let i = choose|i: int|
            0 <= i < tokens.len() && (#[trigger] tokens[i]).pid == pid && name_of_process(
                option_view(tokens[i].executable_url),
            ) == name;
        assert(entries[i] == wanted);
    }
}

/// A process is called by what follows the last slash of its executable's place, where something
/// does.
pub proof fn law_process_is_called_by_its_executable(folder: Seq<char>, name: Seq<char>)
    requires
        !name.contains('/'),
    ensures
        name.len() > 0 ==> name_of_process(Some(folder.push('/') + name)) == name
            && name_of_process(Some(name)) == name,
        name_of_process(Some(folder.push('/'))) == "Unknown Process"@,
        name_of_process(Some(Seq::empty())) == "Unknown Process"@,
        name_of_process(None) == "Unknown Process"@,
{
    crate::laws::texts::law_tail_follows_the_last_mark(folder, name, '/');
    let nothing = Seq::<char>::empty();
    crate::laws::texts::law_tail_follows_the_last_mark(folder, nothing, '/');
    assert(folder.push('/') + nothing =~= folder.push('/'));
}

/// A device is shown with the texts that it answered, and as an `Apple Device` without a version
/// where it gave none.
pub proof fn law_device_is_shown_as_it_answers(
    report: DeviceReport,
    name: plist::Value,
    version: plist::Value,
    text: Seq<char>,
    number: Seq<char>,
)
    ensures
        device_entry(report).udid == report.udid@,
        report.answers is None ==> device_entry(report).name == "Apple Device"@ && device_entry(
            report,
        ).product_version.len() == 0,
        report.answers == Some(
            LockdownAnswers { device_name: Some(name), product_version: Some(version) },
        ) && plist_of(name) == Plist::Text(text) && plist_of(version) == Plist::Text(number) ==> {
            &&& device_entry(report).name == text
            &&& device_entry(report).product_version == number
        },
        report.answers matches Some(given) ==> {
            &&& (given.device_name matches Some(value) && plist_of(value) is Text) ==> plist_of(
                given.device_name->0,
            ) == Plist::Text(device_entry(report).name)
            &&& (given.device_name matches Some(value) && !(plist_of(value) is Text))
                ==> device_entry(report).name == "Apple Device"@
            &&& given.device_name is None ==> device_entry(report).name == "Apple Device"@
            &&& (given.product_version matches Some(value) && plist_of(value) is Text) ==> plist_of(
                given.product_version->0,
            ) == Plist::Text(device_entry(report).product_version)
            &&& (given.product_version matches Some(value) && !(plist_of(value) is Text))
                ==> device_entry(report).product_version.len() == 0
            &&& given.product_version is None ==> device_entry(report).product_version.len() == 0
        },
        report.connection is Usb ==> device_entry(report).connection == "USB"@,
        report.connection is Network ==> device_entry(report).connection == "Network"@,
        report.connection is Unknown ==> device_entry(report).connection == "Other"@,
{
}

/// A device that is gone is named in the error.
pub proof fn law_missing_device_is_named(udid: Seq<char>)
    ensures
        disconnected(udid) == "device "@ + udid + " is no longer connected"@,
{
}

/// Every connected device is shown, in the order in which they are reported.
pub proof fn law_devices_are_shown_in_order(reports: Seq<DeviceReport>, i: int)
    requires
        0 <= i < reports.len(),
    ensures
        device_entries(reports).len() == reports.len(),
        device_entries(reports)[i] == device_entry(reports[i]),
{
}

// ---------------------------------------------------------------------------------------------
// Checks and the host
// ---------------------------------------------------------------------------------------------

/// A check that could not be made has failed with its error; Developer Mode has passed exactly
/// where it is on.
pub proof fn law_checks_fail_with_their_error(on: bool, error: String)
    ensures
        status_for(Ok::<bool, String>(on)) == CheckStatusView::Success,
        status_for(Err::<bool, String>(error)) == CheckStatusView::Failed(error@),
        developer_mode_status(Ok(on)) == CheckStatusView::Success <==> on,
        developer_mode_status(Ok(false)) == CheckStatusView::Failed("Developer Mode is off"@),
        developer_mode_status(Err(error)) == CheckStatusView::Failed(error@),
{
}

/// The status of a device holds each check under its own name: the first and the last have passed
/// where they could be made, the second where Developer Mode is on. Where no check could be made,
/// all have failed for that reason.
pub proof fn law_status_is_that_of_the_checks(made: DeviceChecks, error: String)
    ensures
        inspected(Ok(made)).wireless_debugging is Success <==> made.wireless_debugging is Ok,
        inspected(Ok(made)).developer_mode is Success <==> made.developer_mode == Ok::<
            bool,
            String,
        >(true),
        inspected(Ok(made)).developer_disk_image is Success <==> made.developer_disk_image is Ok,
        made.wireless_debugging matches Err(reason) ==> inspected(Ok(made)).wireless_debugging
            == CheckStatusView::Failed(reason@),
        made.developer_mode matches Err(reason) ==> inspected(Ok(made)).developer_mode
            == CheckStatusView::Failed(reason@),
        made.developer_mode == Ok::<bool, String>(false) ==> inspected(Ok(made)).developer_mode
            == CheckStatusView::Failed("Developer Mode is off"@),
        made.developer_disk_image matches Err(reason) ==> inspected(Ok(made)).developer_disk_image
            == CheckStatusView::Failed(reason@),
        inspected(Err(error)).wireless_debugging == CheckStatusView::Failed(error@),
        inspected(Err(error)).developer_mode == CheckStatusView::Failed(error@),
        inspected(Err(error)).developer_disk_image == CheckStatusView::Failed(error@),
{
}

/// The chip is asked for exactly where no image is mounted, and the image for a chip is mounted
/// exactly where that is the number which the device answered. The image is ready where one was
/// mounted before or mounting went well, and nowhere else; an error ends it as it came.
pub proof fn law_image_is_mounted_for_the_chip(
    mounted: Result<usize, String>,
    answer: Result<plist::Value, String>,
    chip_id: u64,
    outcome: Result<(), String>,
    error: String,
)
    ensures
        after_counting(mounted) is AskChipId <==> mounted == Ok::<usize, String>(0),
        after_counting(mounted) == ImageActionView::Done(Ok(true)) <==> mounted is Ok && mounted
            != Ok::<usize, String>(0),
        after_counting(Err(error)) == ImageActionView::Done(Err(error@)),
        after_answer(answer) == (ImageActionView::Mount { chip_id }) <==> answer is Ok && plist_of(
            answer->Ok_0,
        ) == Plist::Integer(chip_id as int),
        after_answer(Err(error)) == ImageActionView::Done(Err(error@)),
        answer is Ok && !(after_answer(answer) is Mount) ==> after_answer(answer)
            == ImageActionView::Done(Err("missing UniqueChipID in lockdown response"@)),
        after_mounting(outcome) == ImageActionView::Done(Ok(true)) <==> outcome is Ok,
        after_mounting(Err(error)) == ImageActionView::Done(Err(error@)),
        !(after_mounting(outcome) is Mount) && !(after_mounting(outcome) is AskChipId),
{
}

/// Advice comes only where nothing listens for devices, and only on Windows and Linux.
pub proof fn law_advice_is_for_refused_connections(error: Seq<char>, system: HostSystem)
    ensures
        ({
            let refused = occurs(error, "device socket io failed"@) && occurs(
                error,
                "os error 10061"@,
            );
            &&& !refused ==> refresh_advice(error, system).len() == 0
            &&& system is MacOs || system is Other ==> refresh_advice(error, system).len() == 0
            &&& refused && system is Windows ==> refresh_advice(error, system)
                == " Make sure you have Apple Devices/iTunes installed."@
            &&& refused && system is Linux ==> refresh_advice(error, system)
                == " Make sure you have usbmuxd installed."@
        }),
{
}

/// The user's scripts stand in the folder `scripts` within the program's data.
pub proof fn law_scripts_stand_within_the_data(system: HostSystem, folders: HostFolders)
    ensures
        ({
            let data = support_folder(system, folders);
            let scripts = scripts_folder(system, folders);
            &&& scripts.base == data.base
            &&& scripts.parts.len() == data.parts.len() + 1
            &&& scripts.parts.drop_last() == data.parts
            &&& scripts.parts.last() == "scripts"@
        }),
{
    let data = support_folder(system, folders);
    assert(scripts_folder(system, folders).parts.drop_last() =~= data.parts);
}

/// The program's data stands in `~/Library/Application Support/JITserver` on macOS and in
/// `%APPDATA%\\JITserver` on Windows; where that place is not known, and elsewhere, below
/// `XDG_DATA_HOME`, else in `~/.local/share/JITserver`, else in `.jitserver` here.
pub proof fn law_data_folder(system: HostSystem, folders: HostFolders)
    ensures
        ({
            let folder = support_folder(system, folders);
            let own = (system is MacOs && folders.home) || (system is Windows && folders.appdata);
            &&& system is MacOs && folders.home ==> folder.base is Home && folder.parts == seq![
                "Library"@,
                "Application Support"@,
                "JITserver"@,
            ]
            &&& system is Windows && folders.appdata ==> folder.base is AppData && folder.parts
                == seq!["JITserver"@]
            &&& !own && folders.xdg_data_home ==> folder.base is XdgDataHome && folder.parts
                == seq!["JITserver"@]
            &&& !own && !folders.xdg_data_home && folders.home ==> folder.base is Home
                && folder.parts == seq![".local"@, "share"@, "JITserver"@]
            &&& !own && !folders.xdg_data_home && !folders.home ==> folder.base is Current
                && folder.parts == seq![".jitserver"@]
        }),
{
}

} // verus!
