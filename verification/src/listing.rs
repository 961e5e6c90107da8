//! The lists of devices, apps and processes that the window shows.
use vstd::prelude::*;
use vstd::relations::{sorted_by, total_ordering};

use crate::device::{
    AppInfo, AppInfoView, DeviceInfo, DeviceInfoView, ProcessInfo, ProcessInfoView,
};
use crate::order::{
    arranged, law_sort_keeps_items, lemma_same_members_same_order, lemma_text_antisymmetric,
    lemma_text_total, lemma_text_transitive, no_later, sort, sorted_stably, text_at_most, Ranked,
};
use crate::property_list::{
    allows_task_port, app_name, has_get_task_allow, own_name, plist_of, text_in, text_value, Plist,
};
use crate::text::{
    after_last, concat3, lemma_views_push, lowercase, lowercase_of, option_view, same, tail_after,
    views,
};

verus! {

broadcast use lemma_views_push;

// ---------------------------------------------------------------------------------------------
// Devices
// ---------------------------------------------------------------------------------------------

/// How a device is connected.
pub enum Connection {
    Usb,
    Network,
    Unknown,
}

/// The word for a connection.
pub open spec fn connection_word(connection: Connection) -> Seq<char> {
    match connection {
        Connection::Usb => "USB"@,
        Connection::Network => "Network"@,
        Connection::Unknown => "Other"@,
    }
}

/// The word for a connection.
pub fn connection_label(connection: &Connection) -> (label: String)
    ensures
        label@ == connection_word(*connection),
{
    match connection {
        Connection::Usb => "USB".to_owned(),
        Connection::Network => "Network".to_owned(),
        Connection::Unknown => "Other".to_owned(),
    }
}

/// What a device answered about itself: a value is missing where the question failed.
pub struct LockdownAnswers {
    pub device_name: Option<plist::Value>,
    pub product_version: Option<plist::Value>,
}

/// The text in an answer, or `otherwise` where there is no answer or it is not a text.
pub open spec fn answer_text(answer: Option<plist::Value>, otherwise: Seq<char>) -> Seq<char> {
    match answer {
        Some(value) => match text_in(plist_of(value)) {
            Some(text) => text,
            None => otherwise,
        },
        None => otherwise,
    }
}

/// The text in an answer, or `otherwise` where there is no answer or it is not a text.
fn answer_or(answer: &Option<plist::Value>, otherwise: &str) -> (text: String)
    ensures
        text@ == answer_text(*answer, otherwise@),
{
    match answer {
        Some(value) => match text_value(value) {
            Some(text) => text,
            None => otherwise.to_owned(),
        },
        None => otherwise.to_owned(),
    }
}

/// What is known of a connected device; there are no answers where it could not be asked.
pub struct DeviceReport {
    pub udid: String,
    pub answers: Option<LockdownAnswers>,
    pub connection: Connection,
}

/// The entry for a device: without answers it is an `Apple Device` of unknown version.
pub open spec fn device_entry(report: DeviceReport) -> DeviceInfoView {
    DeviceInfoView {
        udid: report.udid@,
        name: match report.answers {
            Some(given) => answer_text(given.device_name, "Apple Device"@),
            None => "Apple Device"@,
        },
        product_version: match report.answers {
            Some(given) => answer_text(given.product_version, Seq::empty()),
            None => Seq::empty(),
        },
        connection: connection_word(report.connection),
    }
}

/// The entry for a device.
pub fn device_info(report: &DeviceReport) -> (info: DeviceInfo)
    ensures
        info@ == device_entry(*report),
{
    let (name, product_version) = match &report.answers {
        Some(given) => {
            proof {
                reveal_strlit("");
                assert(""@ =~= Seq::<char>::empty());
            }
            (answer_or(&given.device_name, "Apple Device"), answer_or(&given.product_version, ""))
        },
        None => ("Apple Device".to_owned(), String::new()),
    };
    DeviceInfo {
        udid: report.udid.clone(),
        name,
        product_version,
        connection: connection_label(&report.connection),
    }
}

/// The entries for the connected devices, in the order in which they were reported.
pub open spec fn device_entries(reports: Seq<DeviceReport>) -> Seq<DeviceInfoView> {
    Seq::new(reports.len(), |i: int| device_entry(reports[i]))
}

/// The entries for the connected devices, in the order in which they were reported.
pub fn refresh_devices(reports: &Vec<DeviceReport>) -> (infos: Vec<DeviceInfo>)
    ensures
        views(infos@) == device_entries(reports@),
{
    let mut infos: Vec<DeviceInfo> = Vec::new();
    for i in 0..reports.len()
        invariant
            views(infos@) == Seq::new(i as nat, |j: int| device_entry(reports@[j])),
    {
        infos.push(device_info(&reports[i]));
    }
    infos
}

/// The error for a device that is not connected.
pub open spec fn disconnected(udid: Seq<char>) -> Seq<char> {
    "device "@ + udid + " is no longer connected"@
}

/// The position of the first connected device with the given identifier, or the error that it is
/// not among them.
pub fn find_device(udids: &Vec<String>, udid: &str) -> (found: Result<usize, String>)
    ensures
        match found {
            Ok(at) => {
                &&& at < udids@.len()
                &&& udids@[at as int]@ == udid@
                &&& forall|i: int| 0 <= i < at ==> #[trigger] udids@[i]@ != udid@
            },
            Err(error) => {
                &&& forall|i: int| 0 <= i < udids@.len() ==> #[trigger] udids@[i]@ != udid@
                &&& error@ == disconnected(udid@)
            },
        },
{
    for i in 0..udids.len()
        invariant
            forall|j: int| 0 <= j < i ==> #[trigger] udids@[j]@ != udid@,
    {
        if same(udids[i].as_str(), udid) {
            return Ok(i);
        }
    }
    Err(concat3("device ", udid, " is no longer connected"))
}

// ---------------------------------------------------------------------------------------------
// Apps
// ---------------------------------------------------------------------------------------------

/// The installed apps that a device reports: a bundle identifier and what is said of it.
pub open spec fn app_records(apps: Seq<(String, plist::Value)>) -> Seq<(Seq<char>, Plist)> {
    Seq::new(apps.len(), |i: int| (apps[i].0@, plist_of(apps[i].1)))
}

/// The entry for an app: its own name, or its bundle identifier where it has none.
pub open spec fn app_entry(record: (Seq<char>, Plist)) -> AppInfoView {
    AppInfoView {
        bundle_id: record.0,
        name: match own_name(record.1) {
            Some(name) => name,
            None => record.0,
        },
    }
}

/// The entries for the apps that may be debugged, in the order given.
pub open spec fn debuggable_apps(records: Seq<(Seq<char>, Plist)>) -> Seq<AppInfoView>
    decreases records.len(),
{
    if records.len() == 0 {
        Seq::empty()
    } else {
        let before = debuggable_apps(records.drop_last());
        if allows_task_port(records.last().1) {
            before.push(app_entry(records.last()))
        } else {
            before
        }
    }
}

impl Ranked for AppInfo {
    open spec fn ranks(a: AppInfoView, b: AppInfoView) -> bool {
        if lowercase_of(a.name) == lowercase_of(b.name) {
            text_at_most(a.bundle_id, b.bundle_id)
        } else {
            text_at_most(lowercase_of(a.name), lowercase_of(b.name))
        }
    }

    proof fn ranks_total(a: AppInfoView, b: AppInfoView) {
        lemma_text_total(lowercase_of(a.name), lowercase_of(b.name));
        lemma_text_total(a.bundle_id, b.bundle_id);
    }

    proof fn ranks_transitive(a: AppInfoView, b: AppInfoView, c: AppInfoView) {
        let x = lowercase_of(a.name);
        let y = lowercase_of(b.name);
        let z = lowercase_of(c.name);
        if x == y && y == z {
            lemma_text_transitive(a.bundle_id, b.bundle_id, c.bundle_id);
        } else {
            lemma_text_total(x, x);
            lemma_text_total(y, y);
            lemma_text_transitive(x, y, z);
            if x == z {
                lemma_text_antisymmetric(x, y);
            }
        }
    }

    fn ranks_no_later(&self, other: &Self) -> bool {
        let mine = lowercase(self.name.as_str());
        let theirs = lowercase(other.name.as_str());
        if mine == theirs {
            no_later(self.bundle_id.as_str(), other.bundle_id.as_str())
        } else {
            no_later(mine.as_str(), theirs.as_str())
        }
    }
}

/// The apps that may be debugged, by name without regard to case and then by bundle identifier.
pub fn list_apps(apps: &Vec<(String, plist::Value)>) -> (infos: Vec<AppInfo>)
    ensures
        sorted_stably::<AppInfo>(debuggable_apps(app_records(apps@)), views(infos@)),
{
    let ghost records = app_records(apps@);
    let mut infos: Vec<AppInfo> = Vec::new();
    for i in 0..apps.len()
        invariant
            records == app_records(apps@),
            views(infos@) == debuggable_apps(records.take(i as int)),
    {
        let record: &(String, plist::Value) = &apps[i];
        assert(records.take(i + 1).drop_last() =~= records.take(i as int));
        assert(records.take(i + 1).last() == (record.0@, plist_of(record.1)));
        if has_get_task_allow(&record.1) {
            let name = match app_name(&record.1) {
                Some(name) => name,
                None => record.0.clone(),
            };
            infos.push(AppInfo { bundle_id: record.0.clone(), name });
        }
    }
    assert(records.take(records.len() as int) =~= records);
    sort(infos)
}

/// An entry is listed if and only if an app with that entry may be debugged.
pub proof fn lemma_debuggable_apps(records: Seq<(Seq<char>, Plist)>)
    ensures
        forall|info: AppInfoView| #[trigger]
            debuggable_apps(records).contains(info) <==> exists|i: int|
                0 <= i < records.len() && allows_task_port((#[trigger] records[i]).1) && app_entry(
                    records[i],
                ) == info,
    decreases records.len(),
{
    if records.len() > 0 {
        let shorter = records.drop_last();
        lemma_debuggable_apps(shorter);
        let before = debuggable_apps(shorter);
        let all = debuggable_apps(records);
        assert forall|info: AppInfoView| #[trigger] all.contains(info) <==> exists|i: int|
            0 <= i < records.len() && allows_task_port((#[trigger] records[i]).1) && app_entry(
                records[i],
            ) == info by {
            if all.contains(info) {
                let at = choose|at: int| 0 <= at < all.len() && all[at] == info;
                if at < before.len() {
                    assert(before[at] == info);
                    assert(before.contains(info));
                    let i = choose|i: int|
                        0 <= i < shorter.len() && allows_task_port((#[trigger] shorter[i]).1)
                            && app_entry(shorter[i]) == info;
                    assert(records[i] == shorter[i]);
                } else {
                    assert(records[records.len() - 1] == records.last());
                }
            }
            if exists|i: int|
                0 <= i < records.len() && allows_task_port((#[trigger] records[i]).1) && app_entry(
                    records[i],
                ) == info {
                let i = choose|i: int|
                    0 <= i < records.len() && allows_task_port((#[trigger] records[i]).1)
                        && app_entry(records[i]) == info;
                if i < shorter.len() {
                    assert(records[i] == shorter[i]);
                    assert(before.contains(info));
                    let at = choose|at: int| 0 <= at < before.len() && before[at] == info;
                    assert(all[at] == info);
                } else {
                    assert(all[all.len() - 1] == info);
                }
            }
        }
    }
}

/// The list of apps holds exactly the apps that may be debugged.
pub proof fn law_only_debuggable_apps_are_listed(
    records: Seq<(Seq<char>, Plist)>,
    infos: Seq<AppInfoView>,
)
    requires
        sorted_stably::<AppInfo>(debuggable_apps(records), infos),
    ensures
        forall|info: AppInfoView| #[trigger]
            infos.contains(info) <==> exists|i: int|
                0 <= i < records.len() && allows_task_port((#[trigger] records[i]).1) && app_entry(
                    records[i],
                ) == info,
{
    lemma_debuggable_apps(records);
    law_sort_keeps_items::<AppInfo>(debuggable_apps(records), infos);
    assert forall|info: AppInfoView| #[trigger] infos.contains(info) <==> exists|i: int|
        0 <= i < records.len() && allows_task_port((#[trigger] records[i]).1) && app_entry(
            records[i],
        ) == info by {
        assert(infos.contains(info) <==> debuggable_apps(records).contains(info));
    }
}

/// No two records share a bundle identifier.
pub open spec fn distinct_bundles(records: Seq<(Seq<char>, Plist)>) -> bool {
    forall|i: int, j: int|
        0 <= i < j < records.len() ==> (#[trigger] records[i]).0 != (#[trigger] records[j]).0
}

/// Apps with distinct bundle identifiers have entries with distinct bundle identifiers.
proof fn lemma_debuggable_distinct(records: Seq<(Seq<char>, Plist)>)
    requires
        distinct_bundles(records),
    ensures
        forall|i: int, j: int|
            0 <= i < j < debuggable_apps(records).len() ==> (#[trigger] debuggable_apps(
                records,
            )[i]).bundle_id != (#[trigger] debuggable_apps(records)[j]).bundle_id,
    decreases records.len(),
{
    if records.len() > 0 {
        let shorter = records.drop_last();
        assert forall|i: int, j: int| 0 <= i < j < shorter.len() implies (
        #[trigger] shorter[i]).0 != (#[trigger] shorter[j]).0 by {
            assert(records[i] == shorter[i] && records[j] == shorter[j]);
        }
        lemma_debuggable_distinct(shorter);
        lemma_debuggable_apps(shorter);
        let before = debuggable_apps(shorter);
        let all = debuggable_apps(records);
        assert forall|i: int, j: int| 0 <= i < j < all.len() implies (#[trigger] all[i]).bundle_id
            != (#[trigger] all[j]).bundle_id by {
            assert(all[i] == before[i]);
            if j < before.len() {
                assert(all[j] == before[j]);
            } else {
                assert(before.contains(before[i]));
                let k = choose|k: int|
                    0 <= k < shorter.len() && allows_task_port((#[trigger] shorter[k]).1)
                        && app_entry(shorter[k]) == before[i];
                assert(records[k] == shorter[k]);
                assert(records[k].0 != records[records.len() - 1].0);
            }
        }
    }
}

/// The order of app entries, with the name as the last word.
spec fn entry_order() -> spec_fn(AppInfoView, AppInfoView) -> bool {
    |a: AppInfoView, b: AppInfoView|
        if a.bundle_id == b.bundle_id && lowercase_of(a.name) == lowercase_of(b.name) {
            text_at_most(a.name, b.name)
        } else {
            AppInfo::ranks(a, b)
        }
}

proof fn lemma_entry_order_total()
    ensures
        total_ordering(entry_order()),
{
    let leq = entry_order();
    assert forall|a: AppInfoView| #[trigger] leq(a, a) by {
        lemma_text_total(a.name, a.name);
    }
    assert forall|a: AppInfoView, b: AppInfoView| #[trigger] leq(a, b) && #[trigger] leq(
        b,
        a,
    ) implies a == b by {
        lemma_entry_antisymmetric(a, b);
    }
    assert forall|a: AppInfoView, b: AppInfoView, c: AppInfoView| #[trigger]
        leq(a, b) && #[trigger] leq(b, c) implies leq(a, c) by {
        lemma_entry_transitive(a, b, c);
    }
    assert forall|a: AppInfoView, b: AppInfoView| #[trigger] leq(a, b) || #[trigger] leq(b, a) by {
        lemma_text_total(a.name, b.name);
        AppInfo::ranks_total(a, b);
    }
}

proof fn lemma_entry_antisymmetric(a: AppInfoView, b: AppInfoView)
    requires
        entry_order()(a, b),
        entry_order()(b, a),
    ensures
        a == b,
{
    let x = lowercase_of(a.name);
    let y = lowercase_of(b.name);
    if x != y {
        lemma_text_antisymmetric(x, y);
    } else if a.bundle_id != b.bundle_id {
        lemma_text_antisymmetric(a.bundle_id, b.bundle_id);
    } else {
        lemma_text_antisymmetric(a.name, b.name);
    }
}

proof fn lemma_entry_transitive(a: AppInfoView, b: AppInfoView, c: AppInfoView)
    requires
        entry_order()(a, b),
        entry_order()(b, c),
    ensures
        entry_order()(a, c),
{
    let x = lowercase_of(a.name);
    let y = lowercase_of(b.name);
    let z = lowercase_of(c.name);
    lemma_text_total(a.bundle_id, a.bundle_id);
    lemma_text_total(b.bundle_id, b.bundle_id);
    assert(AppInfo::ranks(a, b) && AppInfo::ranks(b, c));
    AppInfo::ranks_transitive(a, b, c);
    if a.bundle_id == c.bundle_id && x == z {
        if x != y {
            lemma_text_antisymmetric(x, y);
        }
        if a.bundle_id != b.bundle_id {
            lemma_text_antisymmetric(a.bundle_id, b.bundle_id);
        }
        lemma_text_transitive(a.name, b.name, c.name);
    }
}

/// A list of apps with distinct bundle identifiers has no duplicates and stands in the order of
/// entries.
proof fn lemma_listing_in_order(records: Seq<(Seq<char>, Plist)>, infos: Seq<AppInfoView>)
    requires
        distinct_bundles(records),
        sorted_stably::<AppInfo>(debuggable_apps(records), infos),
    ensures
        infos.no_duplicates(),
        sorted_by(infos, entry_order()),
{
    let input = debuggable_apps(records);
    let origin = choose|origin: Seq<int>| arranged::<AppInfo>(input, infos, origin, 0);
    lemma_debuggable_distinct(records);
    assert forall|i: int, j: int| 0 <= i < j < infos.len() implies (#[trigger] infos[i]).bundle_id
        != (#[trigger] infos[j]).bundle_id by {
        let p = origin[i];
        let q = origin[j];
        assert(infos[i] == input[p] && infos[j] == input[q]);
        assert(p != q);
        if p < q {
            assert(input[p].bundle_id != input[q].bundle_id);
        } else {
            assert(input[q].bundle_id != input[p].bundle_id);
        }
    }
    let leq = entry_order();
    assert forall|i: int, j: int| 0 <= i < j < infos.len() implies #[trigger] leq(
        infos[i],
        infos[j],
    ) by {
        assert(infos[i].bundle_id != infos[j].bundle_id);
    }
    assert forall|i: int, j: int| 0 <= i < infos.len() && 0 <= j < infos.len() && i
        != j implies infos[i] != infos[j] by {
        if i < j {
            assert(infos[i].bundle_id != infos[j].bundle_id);
        } else {
            assert(infos[j].bundle_id != infos[i].bundle_id);
        }
    }
}

/// The list of apps does not depend on the order in which the device reports them.
pub proof fn law_app_listing_ignores_report_order(
    first: Seq<(Seq<char>, Plist)>,
    second: Seq<(Seq<char>, Plist)>,
    first_infos: Seq<AppInfoView>,
    second_infos: Seq<AppInfoView>,
)
    requires
        distinct_bundles(first),
        distinct_bundles(second),
        forall|record: (Seq<char>, Plist)| #[trigger]
            first.contains(record) <==> second.contains(record),
        sorted_stably::<AppInfo>(debuggable_apps(first), first_infos),
        sorted_stably::<AppInfo>(debuggable_apps(second), second_infos),
    ensures
        first_infos == second_infos,
{
    lemma_listing_in_order(first, first_infos);
    lemma_listing_in_order(second, second_infos);
    law_only_debuggable_apps_are_listed(first, first_infos);
    law_only_debuggable_apps_are_listed(second, second_infos);
    lemma_entry_order_total();
    assert forall|info: AppInfoView| #[trigger] first_infos.contains(
        info,
    ) <==> second_infos.contains(info) by {
        if first_infos.contains(info) {
            let i = choose|i: int|
                0 <= i < first.len() && allows_task_port((#[trigger] first[i]).1) && app_entry(
                    first[i],
                ) == info;
            assert(first.contains(first[i]));
            let k = choose|k: int| 0 <= k < second.len() && second[k] == first[i];
            assert(allows_task_port(second[k].1) && app_entry(second[k]) == info);
        }
        if second_infos.contains(info) {
            let i = choose|i: int|
                0 <= i < second.len() && allows_task_port((#[trigger] second[i]).1) && app_entry(
                    second[i],
                ) == info;
            assert(second.contains(second[i]));
            assert(first.contains(second[i]));
            let k = choose|k: int| 0 <= k < first.len() && first[k] == second[i];
            assert(allows_task_port(first[k].1) && app_entry(first[k]) == info);
        }
    }
    lemma_same_members_same_order(first_infos, second_infos, entry_order());
}

// ---------------------------------------------------------------------------------------------
// Processes
// ---------------------------------------------------------------------------------------------

/// A running process as the device reports it.
pub struct ProcessToken {
    pub pid: u32,
    /// Where the executable stands, if the device says so.
    pub executable_url: Option<String>,
}

/// The name of a process: what follows the last `/` of its executable's place.
pub open spec fn name_of_process(executable_url: Option<Seq<char>>) -> Seq<char> {
    match executable_url {
        Some(url) => if after_last(url, '/').len() > 0 {
            after_last(url, '/')
        } else {
            "Unknown Process"@
        },
        None => "Unknown Process"@,
    }
}

/// The name of a process.
pub fn process_name(process: &ProcessToken) -> (name: String)
    ensures
        name@ == name_of_process(option_view(process.executable_url)),
{
    match &process.executable_url {
        Some(url) => {
            let name = tail_after(url.as_str(), '/');
            if name.as_str().is_empty() {
                "Unknown Process".to_owned()
            } else {
                name
            }
        },
        None => "Unknown Process".to_owned(),
    }
}

impl Ranked for ProcessInfo {
    open spec fn ranks(a: ProcessInfoView, b: ProcessInfoView) -> bool {
        if lowercase_of(a.name) == lowercase_of(b.name) {
            a.pid <= b.pid
        } else {
            text_at_most(lowercase_of(a.name), lowercase_of(b.name))
        }
    }

    proof fn ranks_total(a: ProcessInfoView, b: ProcessInfoView) {
        lemma_text_total(lowercase_of(a.name), lowercase_of(b.name));
    }

    proof fn ranks_transitive(a: ProcessInfoView, b: ProcessInfoView, c: ProcessInfoView) {
        let x = lowercase_of(a.name);
        let y = lowercase_of(b.name);
        let z = lowercase_of(c.name);
        lemma_text_total(x, x);
        lemma_text_total(y, y);
        lemma_text_transitive(x, y, z);
        if x == z {
            lemma_text_antisymmetric(x, y);
        }
    }

    fn ranks_no_later(&self, other: &Self) -> bool {
        let mine = lowercase(self.name.as_str());
        let theirs = lowercase(other.name.as_str());
        if mine == theirs {
            self.pid <= other.pid
        } else {
            no_later(mine.as_str(), theirs.as_str())
        }
    }
}

/// The entries for the reported processes, in the order given.
pub open spec fn process_entries(processes: Seq<ProcessToken>) -> Seq<ProcessInfoView> {
    Seq::new(
        processes.len(),
        |i: int|
            ProcessInfoView {
                pid: processes[i].pid,
                name: name_of_process(option_view(processes[i].executable_url)),
            },
    )
}

/// The running processes, by name without regard to case and then by number.
pub fn list_processes(processes: &Vec<ProcessToken>) -> (infos: Vec<ProcessInfo>)
    ensures
        sorted_stably::<ProcessInfo>(process_entries(processes@), views(infos@)),
{
    let mut infos: Vec<ProcessInfo> = Vec::new();
    for i in 0..processes.len()
        invariant
            views(infos@) =~= process_entries(processes@).take(i as int),
    {
        let name = process_name(&processes[i]);
        infos.push(ProcessInfo { pid: processes[i].pid, name });
    }
    assert(views(infos@) =~= process_entries(processes@));
    sort(infos)
}

} // verus!
