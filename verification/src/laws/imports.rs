//! Laws on choosing, importing and deleting scripts.
use vstd::prelude::*;

use crate::catalog::{ScriptEntryView, ScriptLocationView};
use crate::debugger::{has_name, has_similar_name, is_file, AppView};
use crate::imports::{
    import_awaits, import_step, DeletionView, ImportActionView, ImportPhaseView, ImportReplyView,
    PathTroubleView, PickedScriptView,
};
use crate::lists::{first_at, lemma_first_at};
use crate::text::{ascii_lowercase, decimal};

verus! {

// ---------------------------------------------------------------------------------------------
// Choosing
// ---------------------------------------------------------------------------------------------

/// Only a script that is a file has a file to read: that file.
pub proof fn law_script_file_is_the_file(app: AppView, index: usize, id: u64)
    ensures
        app.script_file(index) == Some(id) <==> index < app.script_entries.len()
            && app.script_entries[index as int].location == ScriptLocationView::File(id),
{
}

/// Loading a listed script selects it and takes its name and its source: what was read of its file,
/// or what is bundled. A file that could not be read is said in the log and changes nothing else.
pub proof fn law_loading_takes_name_and_source(
    app: AppView,
    index: usize,
    file: Result<Seq<char>, Seq<char>>,
    bundled: Seq<char>,
    id: u64,
)
    ensures
        index >= app.script_entries.len() ==> app.load_script(index, file) == app,
        index < app.script_entries.len() && app.script_entries[index as int].location
            == ScriptLocationView::Bundled(bundled) ==> app.load_script(index, file) == (AppView {
            selected_script: Some(index),
            script_name: app.script_entries[index as int].name,
            script_source: bundled,
            ..app
        }),
        index < app.script_entries.len() && app.script_entries[index as int].location
            == ScriptLocationView::File(id) && file is Ok ==> app.load_script(index, file) == (
        AppView {
            selected_script: Some(index),
            script_name: app.script_entries[index as int].name,
            script_source: file->Ok_0,
            ..app
        }),
        index < app.script_entries.len() && app.script_entries[index as int].location
            == ScriptLocationView::File(id) && file is Err ==> app.load_script(index, file) == (
        AppView {
            logs: app.logs.push(
                "Failed to read script "@ + app.script_entries[index as int].name + ": "@
                    + file->Err_0,
            ),
            ..app
        }),
{
}

/// A new list of scripts replaces the old one. A selected script stays selected, and is loaded
/// next, where one of its name is listed, the first such one; otherwise none is selected and the
/// first is loaded next. Nothing else changes.
pub proof fn law_selected_script_stays_selected(
    app: AppView,
    entries: Seq<ScriptEntryView>,
    error: Seq<char>,
    i: int,
)
    requires
        entries.len() <= usize::MAX,
    ensures
        ({
            let after = app.refresh_scripts(Ok(entries));
            let load = app.script_to_load(Ok(entries));
            let listed = app.selected_script_entry() is Some && 0 <= i < entries.len()
                && entries[i].name == app.selected_script_entry()->0.name;
            &&& after == AppView {
                script_entries: entries,
                selected_script: after.selected_script,
                ..app
            }
            &&& after.selected_script is Some ==> {
                &&& app.selected_script_entry() is Some
                &&& after.selected_script->0 < entries.len()
                &&& entries[after.selected_script->0 as int].name
                    == app.selected_script_entry()->0.name
                &&& load == after.selected_script
            }
            &&& listed ==> after.selected_script is Some && after.selected_script->0 <= i
            &&& after.selected_script is None && entries.len() > 0 ==> load == Some(0usize)
            &&& after.selected_script is None && entries.len() == 0 ==> load is None
        }),
        app.refresh_scripts(Err(error)) == (AppView {
            logs: app.logs.push("Failed to load scripts: "@ + error),
            ..app
        }),
        app.script_to_load(Err(error)) is None,
{
    if app.selected_script_entry() is Some {
        lemma_first_at(entries, has_name(app.selected_script_entry()->0.name));
    }
}

/// A script that is selected by its name is loaded; a name that no script has changes nothing.
pub proof fn law_named_script_is_loaded(
    app: AppView,
    name: Seq<char>,
    file: Result<Seq<char>, Seq<char>>,
)
    requires
        app.script_entries.len() <= usize::MAX,
    ensures
        app.script_named(name) matches Some(at) ==> app.select_script_by_name(name, file)
            == app.load_script(at, file),
        (forall|i: int|
            0 <= i < app.script_entries.len() ==> ascii_lowercase(
                (#[trigger] app.script_entries[i]).name,
            ) != ascii_lowercase(name)) ==> app.select_script_by_name(name, file) == app,
{
    lemma_first_at(app.script_entries, has_similar_name(name));
}

/// A recommended script that is listed is loaded for the target, which is said in the log; without
/// one nothing changes. Its file is that of the script which is loaded.
pub proof fn law_recommended_script_is_loaded(
    app: AppView,
    target: Seq<char>,
    name: Seq<char>,
    file: Result<Seq<char>, Seq<char>>,
)
    ensures
        app.auto_select_script(target, None, file) == app,
        app.recommended_file(None) is None,
        app.script_named(name) is None ==> app.auto_select_script(target, Some(name), file) == app
            && app.recommended_file(Some(name)) is None,
        app.script_named(name) matches Some(at) ==> {
            let loaded = app.load_script(at, file);
            &&& app.auto_select_script(target, Some(name), file) == AppView {
                logs: loaded.logs.push("Auto-selected script "@ + name + " for "@ + target),
                ..loaded
            }
            &&& app.recommended_file(Some(name)) == app.script_file(at)
        },
{
}

/// Choosing the app LiveContainer, however its name is written, is followed by a word of advice;
/// choosing any other target is not.
pub proof fn law_advice_is_for_livecontainer(app: AppView, target: Seq<char>)
    ensures
        ascii_lowercase(target) == "livecontainer"@ ==> app.note_livecontainer(target) == (AppView {
            logs: app.logs.push(
                "LiveContainer selected. Ensure you select the corresponding script for your containerized app."@,
            ),
            ..app
        }),
        ascii_lowercase(target) != "livecontainer"@ ==> app.note_livecontainer(target) == app,
{
    reveal_strlit("LiveContainer");
    reveal_strlit("livecontainer");
    assert(ascii_lowercase("LiveContainer"@) =~= "livecontainer"@);
}

/// An app that is shown can be selected: its position is remembered and its script loaded. A
/// process that is shown is selected by its number, which is entered, and its script loaded. Beyond
/// the end of what is shown nothing changes.
pub proof fn law_selecting_a_target_loads_its_script(
    app: AppView,
    index: usize,
    recommended: Option<Seq<char>>,
    file: Result<Seq<char>, Seq<char>>,
)
    ensures
        index < app.filtered_apps().len() ==> {
            let target = app.filtered_apps()[index as int].name;
            let chosen = AppView { selected_app: Some(index), ..app };
            app.select_app(index, recommended, file) == chosen.auto_select_script(
                target,
                recommended,
                file,
            ).note_livecontainer(target)
        },
        index >= app.filtered_apps().len() ==> app.select_app(index, recommended, file) == app,
        index < app.filtered_processes().len() ==> {
            let process = app.filtered_processes()[index as int];
            let chosen = AppView {
                selected_process: Some(process.pid),
                manual_pid: decimal(process.pid as nat),
                ..app
            };
            app.select_process(index, recommended, file) == chosen.auto_select_script(
                process.name,
                recommended,
                file,
            ).note_livecontainer(process.name)
        },
        index >= app.filtered_processes().len() ==> app.select_process(index, recommended, file)
            == app,
{
}

// ---------------------------------------------------------------------------------------------
// Importing
// ---------------------------------------------------------------------------------------------

/// The work of an import and of the replies to it, once the scripts directory was asked for: every
/// action in turn, and the window at the end.
pub ghost struct Importing {
    pub app: AppView,
    pub phase: ImportPhaseView,
    pub actions: Seq<ImportActionView>,
}

/// The course of an import to which the given replies come; `reserved` tells whether the name of
/// the picked file is that of a built-in script.
pub open spec fn importing(app: AppView, replies: Seq<ImportReplyView>, reserved: bool) -> Importing
    decreases replies.len(),
{
    if replies.len() == 0 {
        Importing { app, phase: ImportPhaseView::CreatingFolder, actions: Seq::empty() }
    } else {
        let before = importing(app, replies.drop_last(), reserved);
        let step = import_step(before.app, before.phase, replies.last(), reserved);
        Importing { app: step.app, phase: step.phase, actions: before.actions.push(step.action) }
    }
}

proof fn lemma_importing_push(
    app: AppView,
    replies: Seq<ImportReplyView>,
    reply: ImportReplyView,
    reserved: bool,
)
    ensures
        ({
            let before = importing(app, replies, reserved);
            let step = import_step(before.app, before.phase, reply, reserved);
            importing(app, replies.push(reply), reserved) == (Importing {
                app: step.app,
                phase: step.phase,
                actions: before.actions.push(step.action),
            })
        }),
{
    assert(replies.push(reply).drop_last() =~= replies);
}

/// The replies of an import up to the picked file.
pub open spec fn picking(picked: PickedScriptView) -> Seq<ImportReplyView> {
    seq![ImportReplyView::FolderCreated, ImportReplyView::Picked(picked)]
}

proof fn lemma_picking(app: AppView, picked: PickedScriptView, reserved: bool)
    ensures
        ({
            let step = import_step(
                app,
                ImportPhaseView::Picking,
                ImportReplyView::Picked(picked),
                reserved,
            );
            importing(app, picking(picked), reserved) == (Importing {
                app: step.app,
                phase: step.phase,
                actions: seq![ImportActionView::PickScript, step.action],
            })
        }),
{
    let a = ImportReplyView::FolderCreated;
    let b = ImportReplyView::Picked(picked);
    lemma_importing_push(app, Seq::empty(), a, reserved);
    lemma_importing_push(app, seq![a], b, reserved);
    assert(Seq::<ImportReplyView>::empty().push(a) =~= seq![a]);
    assert(seq![a].push(b) =~= picking(picked));
    assert(importing(app, picking(picked), reserved).actions =~= seq![
        ImportActionView::PickScript,
        import_step(app, ImportPhaseView::Picking, b, reserved).action,
    ]);
}

/// Without a scripts directory no file is asked for, and the error is said in the log.
pub proof fn law_import_needs_the_folder(app: AppView, trouble: PathTroubleView, reserved: bool)
    ensures
        importing(app, seq![ImportReplyView::FolderFailed(trouble)], reserved) == (Importing {
            app: AppView {
                logs: app.logs.push(
                    "Failed to create scripts directory "@ + trouble.path + ": "@ + trouble.error,
                ),
                ..app
            },
            phase: ImportPhaseView::Idle,
            actions: seq![ImportActionView::Finish],
        }),
{
    let a = ImportReplyView::FolderFailed(trouble);
    lemma_importing_push(app, Seq::empty(), a, reserved);
    assert(Seq::<ImportReplyView>::empty().push(a) =~= seq![a]);
    assert(importing(app, seq![a], reserved).actions =~= seq![ImportActionView::Finish]);
}

/// Nothing is written for a file that was not picked, could not be read, has no name, or has that
/// of a built-in script; all but the first is said in the log, and nothing else changes.
pub proof fn law_refused_file_is_not_written(
    app: AppView,
    picked: PickedScriptView,
    reserved: bool,
)
    ensures
        ({
            let line = match picked {
                PickedScriptView::Nothing => None,
                PickedScriptView::Unreadable(trouble) => Some(
                    "Failed to read imported script "@ + trouble.path + ": "@ + trouble.error,
                ),
                PickedScriptView::Read { source, file_name: None } => Some(
                    "Imported script must have a valid file name"@,
                ),
                PickedScriptView::Read { source, file_name: Some(file_name) } => Some(
                    "Cannot import "@ + file_name
                        + " because that name is reserved for a built-in script"@,
                ),
            };
            let named = picked matches PickedScriptView::Read { source, file_name: Some(_) };
            !named || reserved ==> importing(app, picking(picked), reserved) == (Importing {
                app: match line {
                    Some(line) => AppView { logs: app.logs.push(line), ..app },
                    None => app,
                },
                phase: ImportPhaseView::Idle,
                actions: seq![ImportActionView::PickScript, ImportActionView::Finish],
            })
        }),
{
    lemma_picking(app, picked, reserved);
}

/// A file whose name is taken is not written either; one whose name is free is written under that
/// name with the source that was read, and nothing has changed until then.
pub proof fn law_picked_file_is_written_as_it_was_read(
    app: AppView,
    source: Seq<char>,
    file_name: Seq<char>,
    exists: bool,
)
    ensures
        ({
            let picked = PickedScriptView::Read { source, file_name: Some(file_name) };
            let all = importing(
                app,
                picking(picked).push(ImportReplyView::Target { exists }),
                false,
            );
            &&& all.actions.take(2) == seq![
                ImportActionView::PickScript,
                ImportActionView::CheckTarget { file_name },
            ]
            &&& all.actions.len() == 3
            &&& exists ==> all.actions[2] is Finish && all.phase is Idle && all.app == (AppView {
                logs: app.logs.push(
                    "Cannot import "@ + file_name
                        + " because a script with that name already exists"@,
                ),
                ..app
            })
            &&& !exists ==> all.actions[2] == (ImportActionView::WriteScript { file_name, source })
                && all.phase is Writing && all.app == app
        }),
{
    let picked = PickedScriptView::Read { source, file_name: Some(file_name) };
    let c = ImportReplyView::Target { exists };
    lemma_picking(app, picked, false);
    lemma_importing_push(app, picking(picked), c, false);
    let all = importing(app, picking(picked).push(c), false);
    assert(all.actions.take(2) =~= seq![
        ImportActionView::PickScript,
        ImportActionView::CheckTarget { file_name },
    ]);
}

/// A file that could not be written ends the import with a line in the log. One that was written is
/// said in the log by its name, and the scripts are listed anew.
pub proof fn law_written_script_is_listed(
    app: AppView,
    trouble: PathTroubleView,
    target: u64,
    name: Seq<char>,
    reserved: bool,
)
    ensures
        ({
            let step = import_step(
                app,
                ImportPhaseView::Writing,
                ImportReplyView::WriteFailed(trouble),
                reserved,
            );
            &&& step.action is Finish && step.phase is Idle
            &&& step.app == AppView {
                logs: app.logs.push(
                    "Failed to import script to "@ + trouble.path + ": "@ + trouble.error,
                ),
                ..app
            }
        }),
        ({
            let step = import_step(
                app,
                ImportPhaseView::Writing,
                ImportReplyView::Written { target, shown_name: Some(name) },
                reserved,
            );
            &&& step.action is ListScripts && step.phase == (ImportPhaseView::Listing { target })
            &&& step.app == AppView { logs: app.logs.push("Imported script "@ + name), ..app }
        }),
        ({
            let step = import_step(
                app,
                ImportPhaseView::Writing,
                ImportReplyView::Written { target, shown_name: None },
                reserved,
            );
            &&& step.action is ListScripts && step.phase == (ImportPhaseView::Listing { target })
            &&& step.app == AppView {
                logs: app.logs.push("Imported script "@ + "custom.js"@),
                ..app
            }
        }),
{
}

/// Once the scripts are listed, the script that was selected, or else the first, is loaded, and
/// then the imported one, if it is listed: in the end it is the selected script, under its name and
/// with the source that was read of its file.
pub proof fn law_imported_script_ends_up_selected(
    app: AppView,
    entries: Seq<ScriptEntryView>,
    target: u64,
    at: int,
    first: Result<Seq<char>, Seq<char>>,
    source: Seq<char>,
    reserved: bool,
)
    requires
        entries.len() <= usize::MAX,
        0 <= at < entries.len(),
        entries[at].location == ScriptLocationView::File(target),
        forall|i: int|
            0 <= i < entries.len() && (#[trigger] entries[i]).location == ScriptLocationView::File(
                target,
            ) ==> i == at,
    ensures
        ({
            let listed = import_step(
                app,
                ImportPhaseView::Listing { target },
                ImportReplyView::Listed(Ok(entries)),
                reserved,
            );
            let loaded = import_step(
                listed.app,
                listed.phase,
                ImportReplyView::Loaded(first),
                reserved,
            );
            let done = import_step(
                loaded.app,
                loaded.phase,
                ImportReplyView::Loaded(Ok(source)),
                reserved,
            );
            let load = app.script_to_load(Ok(entries));
            &&& load is Some && listed.action == (ImportActionView::LoadScript { index: load->0 })
            &&& loaded.action == (ImportActionView::LoadScript { index: at as usize })
            &&& loaded.app.logs == app.refresh_scripts(Ok(entries)).load_script(
                load->0,
                first,
            ).logs
            &&& done.action is Finish && done.phase is Idle
            &&& done.app.selected_script == Some(at as usize)
            &&& done.app.script_entries == entries
            &&& done.app.script_name == entries[at].name
            &&& done.app.script_source == source
            &&& done.app.logs == loaded.app.logs
            &&& done.app == AppView {
                script_entries: entries,
                selected_script: done.app.selected_script,
                script_name: done.app.script_name,
                script_source: done.app.script_source,
                logs: done.app.logs,
                ..app
            }
        }),
{
    let listed = import_step(
        app,
        ImportPhaseView::Listing { target },
        ImportReplyView::Listed(Ok(entries)),
        reserved,
    );
    if app.selected_script_entry() is Some {
        lemma_first_at(entries, has_name(app.selected_script_entry()->0.name));
    }
    let index = app.script_to_load(Ok(entries))->0;
    let settled = listed.app.load_script(index, first);
    assert(settled.script_entries == entries);
    lemma_first_at(entries, is_file(target));
    assert(is_file(target)(entries[at]));
    assert(first_at(entries, is_file(target)) == Some(at as usize));
}

/// Where the imported script is not listed, none is selected in the end; and where the scripts
/// could not be listed, that is said in the log and the imported one is looked for among the old
/// ones.
pub proof fn law_unlisted_script_is_not_selected(
    app: AppView,
    entries: Seq<ScriptEntryView>,
    target: u64,
    first: Result<Seq<char>, Seq<char>>,
    error: Seq<char>,
    reserved: bool,
)
    requires
        entries.len() <= usize::MAX,
        app.script_entries.len() <= usize::MAX,
        forall|i: int|
            0 <= i < entries.len() ==> (#[trigger] entries[i]).location != ScriptLocationView::File(
                target,
            ),
    ensures
        ({
            let listed = import_step(
                app,
                ImportPhaseView::Listing { target },
                ImportReplyView::Listed(Ok(entries)),
                reserved,
            );
            let loaded = import_step(
                listed.app,
                listed.phase,
                ImportReplyView::Loaded(first),
                reserved,
            );
            &&& entries.len() == 0 ==> listed.action is Finish && listed.phase is Idle
                && listed.app == AppView { script_entries: entries, selected_script: None, ..app }
            &&& entries.len() > 0 ==> {
                &&& listed.action == (ImportActionView::LoadScript {
                    index: app.script_to_load(Ok(entries))->0,
                })
                &&& loaded.action is Finish && loaded.phase is Idle
                &&& loaded.app == AppView {
                    selected_script: None,
                    ..app.refresh_scripts(Ok(entries)).load_script(
                        app.script_to_load(Ok(entries))->0,
                        first,
                    )
                }
            }
        }),
        ({
            let failed = import_step(
                app,
                ImportPhaseView::Listing { target },
                ImportReplyView::Listed(Err(error)),
                reserved,
            );
            &&& failed.app.logs == app.logs.push("Failed to load scripts: "@ + error)
            &&& failed.app == AppView {
                logs: failed.app.logs,
                selected_script: failed.app.selected_script,
                ..app
            }
            &&& failed.app.selected_script matches Some(at) ==> at < app.script_entries.len()
                && app.script_entries[at as int].location == ScriptLocationView::File(target)
                && failed.action == (ImportActionView::LoadScript { index: at })
            &&& failed.app.selected_script is None ==> failed.action is Finish && (forall|i: int|
                0 <= i < app.script_entries.len() ==> (#[trigger] app.script_entries[i]).location
                    != ScriptLocationView::File(target))
        }),
{
    if app.selected_script_entry() is Some {
        lemma_first_at(entries, has_name(app.selected_script_entry()->0.name));
    }
    lemma_first_at(entries, is_file(target));
    lemma_first_at(app.script_entries, is_file(target));
    let refreshed = app.refresh_scripts(Ok(entries));
    let settled = refreshed.load_script(app.script_to_load(Ok(entries))->0, first);
    assert(settled.script_entries == entries);
    assert forall|i: int| 0 <= i < app.script_entries.len() && first_at(
        app.script_entries,
        is_file(target),
    ) is None implies (#[trigger] app.script_entries[i]).location != ScriptLocationView::File(
        target,
    ) by {
        assert(!is_file(target)(app.script_entries[i]));
    }
}

/// The reply is one to the action of an import.
pub open spec fn import_answers(action: ImportActionView, reply: ImportReplyView) -> bool {
    match action {
        ImportActionView::CreateFolder => reply is FolderCreated || reply is FolderFailed,
        ImportActionView::PickScript => reply is Picked,
        ImportActionView::CheckTarget { .. } => reply is Target,
        ImportActionView::WriteScript { .. } => reply is Written || reply is WriteFailed,
        ImportActionView::ListScripts => reply is Listed,
        ImportActionView::LoadScript { .. } => reply is Loaded,
        ImportActionView::Finish => false,
    }
}

/// After each action an import waits for the reply to that action and for nothing else.
pub proof fn law_import_waits_for_its_action(
    app: AppView,
    phase: ImportPhaseView,
    reply: ImportReplyView,
    later: ImportReplyView,
    reserved: bool,
)
    requires
        import_awaits(phase, reply),
    ensures
        import_awaits(ImportPhaseView::CreatingFolder, later) <==> import_answers(
            ImportActionView::CreateFolder,
            later,
        ),
        import_awaits(import_step(app, phase, reply, reserved).phase, later) <==> import_answers(
            import_step(app, phase, reply, reserved).action,
            later,
        ),
{
}

// ---------------------------------------------------------------------------------------------
// Deleting
// ---------------------------------------------------------------------------------------------

/// What is deleted is the file of the selected script, if that script is an editable file; nothing
/// changes before it is deleted. Otherwise it is said in the log why nothing is.
pub proof fn law_only_editable_files_are_deleted(app: AppView, name: Seq<char>, file: u64)
    ensures
        app.deletion() == Some(DeletionView { name, file }) <==> (
        app.selected_script_entry() matches Some(entry) && entry.editable && entry.name == name
            && entry.location == ScriptLocationView::File(file)),
        app.deletion() is Some ==> app.delete_selected_script() == app,
        app.deletion() is None ==> (app.selected_script_entry() matches Some(entry)
            ==> app.delete_selected_script() == (AppView {
            logs: app.logs.push("Built-in script "@ + entry.name + " cannot be deleted"@),
            ..app
        })),
        app.selected_script_entry() is None ==> app.delete_selected_script() == (AppView {
            logs: app.logs.push("Select a script first"@),
            ..app
        }),
{
}

/// Once a script was deleted none is selected, which is said in the log; where it could not be,
/// that is said with the error, and nothing else changes.
pub proof fn law_deleted_script_is_not_selected(
    app: AppView,
    name: Seq<char>,
    trouble: PathTroubleView,
)
    ensures
        app.script_deleted(name, Ok(())) == (AppView {
            selected_script: None,
            logs: app.logs.push("Deleted script "@ + name),
            ..app
        }),
        app.script_deleted(name, Err(trouble)) == (AppView {
            logs: app.logs.push(
                "Failed to delete script "@ + trouble.path + ": "@ + trouble.error,
            ),
            ..app
        }),
{
}

} // verus!
