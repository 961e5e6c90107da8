//! Bringing a script file into the scripts directory, and deleting one from it.
//!
//! Nothing here touches a file. An import says what to do next and is told how that went.
use vstd::prelude::*;

use crate::catalog::{
    built_in_possible, bundled_entries, catalog_possible, is_built_in_script_name,
    law_built_in_scripts_are_kept, BundledSources, ListedFile, ScriptEntry, ScriptEntryView,
    ScriptLocation, ScriptLocationView,
};
use crate::debugger::{is_file, AppView, DebuggerApp};
use crate::lists::{first_at, lemma_first_at, position};
use crate::text::{
    concat2, concat3, concat4, lemma_views_push, option_view, outcome_view, outcome_views, views,
};

verus! {

broadcast use lemma_views_push;

// ---------------------------------------------------------------------------------------------
// Vocabulary
// ---------------------------------------------------------------------------------------------

/// What went wrong with a file or folder.
#[derive(Debug)]
pub struct PathTrouble {
    /// The path, as it is shown.
    pub path: String,
    pub error: String,
}

/// What a `PathTrouble` says.
pub ghost struct PathTroubleView {
    pub path: Seq<char>,
    pub error: Seq<char>,
}

impl View for PathTrouble {
    type V = PathTroubleView;

    open spec fn view(&self) -> PathTroubleView {
        PathTroubleView { path: self.path@, error: self.error@ }
    }
}

/// What came of asking the user for a file.
#[derive(Debug)]
pub enum PickedScript {
    /// No file was picked.
    Nothing,
    /// The file could not be read.
    Unreadable(PathTrouble),
    /// The file was read; `file_name` is the last part of its path, where it is text.
    Read { source: String, file_name: Option<String> },
}

/// What a `PickedScript` says.
pub ghost enum PickedScriptView {
    Nothing,
    Unreadable(PathTroubleView),
    Read { source: Seq<char>, file_name: Option<Seq<char>> },
}

impl View for PickedScript {
    type V = PickedScriptView;

    open spec fn view(&self) -> PickedScriptView {
        match self {
            PickedScript::Nothing => PickedScriptView::Nothing,
            PickedScript::Unreadable(trouble) => PickedScriptView::Unreadable(trouble@),
            PickedScript::Read { source, file_name } => PickedScriptView::Read {
                source: source@,
                file_name: option_view(*file_name),
            },
        }
    }
}

/// What an import waits for.
#[derive(Debug)]
pub enum ImportPhase {
    Idle,
    CreatingFolder,
    Picking,
    CheckingTarget { file_name: String, source: String },
    Writing,
    Listing { target: u64 },
    LoadingSelected { index: usize, target: u64 },
    LoadingImported { index: usize },
}

/// What an `ImportPhase` says.
pub ghost enum ImportPhaseView {
    Idle,
    CreatingFolder,
    Picking,
    CheckingTarget { file_name: Seq<char>, source: Seq<char> },
    Writing,
    Listing { target: u64 },
    LoadingSelected { index: usize, target: u64 },
    LoadingImported { index: usize },
}

impl View for ImportPhase {
    type V = ImportPhaseView;

    open spec fn view(&self) -> ImportPhaseView {
        match self {
            ImportPhase::Idle => ImportPhaseView::Idle,
            ImportPhase::CreatingFolder => ImportPhaseView::CreatingFolder,
            ImportPhase::Picking => ImportPhaseView::Picking,
            ImportPhase::CheckingTarget { file_name, source } => ImportPhaseView::CheckingTarget {
                file_name: file_name@,
                source: source@,
            },
            ImportPhase::Writing => ImportPhaseView::Writing,
            ImportPhase::Listing { target } => ImportPhaseView::Listing { target: *target },
            ImportPhase::LoadingSelected { index, target } => ImportPhaseView::LoadingSelected {
                index: *index,
                target: *target,
            },
            ImportPhase::LoadingImported { index } => ImportPhaseView::LoadingImported {
                index: *index,
            },
        }
    }
}

/// The work to do next.
#[derive(Debug)]
pub enum ImportAction {
    /// Create the scripts directory.
    CreateFolder,
    /// Ask the user for a script file and read it.
    PickScript,
    /// See whether the scripts directory holds a file of that name.
    CheckTarget { file_name: String },
    /// Write a file of that name to the scripts directory.
    WriteScript { file_name: String, source: String },
    /// List the scripts.
    ListScripts,
    /// Read the file of the script at `index`.
    LoadScript { index: usize },
    /// The import is over.
    Finish,
}

/// What an `ImportAction` says.
pub ghost enum ImportActionView {
    CreateFolder,
    PickScript,
    CheckTarget { file_name: Seq<char> },
    WriteScript { file_name: Seq<char>, source: Seq<char> },
    ListScripts,
    LoadScript { index: usize },
    Finish,
}

impl View for ImportAction {
    type V = ImportActionView;

    open spec fn view(&self) -> ImportActionView {
        match self {
            ImportAction::CreateFolder => ImportActionView::CreateFolder,
            ImportAction::PickScript => ImportActionView::PickScript,
            ImportAction::CheckTarget { file_name } => ImportActionView::CheckTarget {
                file_name: file_name@,
            },
            ImportAction::WriteScript { file_name, source } => ImportActionView::WriteScript {
                file_name: file_name@,
                source: source@,
            },
            ImportAction::ListScripts => ImportActionView::ListScripts,
            ImportAction::LoadScript { index } => ImportActionView::LoadScript { index: *index },
            ImportAction::Finish => ImportActionView::Finish,
        }
    }
}

/// How the work went.
#[derive(Debug)]
pub enum ImportReply {
    FolderCreated,
    FolderFailed(PathTrouble),
    Picked(PickedScript),
    Target { exists: bool },
    /// The file was written; `target` is the number that stands for its path, and `shown_name` the
    /// last part of that path, where it is text.
    Written { target: u64, shown_name: Option<String> },
    WriteFailed(PathTrouble),
    Listed(Result<Vec<ScriptEntry>, String>),
    /// What reading the file gave.
    Loaded(Result<String, String>),
}

/// What an `ImportReply` says.
pub ghost enum ImportReplyView {
    FolderCreated,
    FolderFailed(PathTroubleView),
    Picked(PickedScriptView),
    Target { exists: bool },
    Written { target: u64, shown_name: Option<Seq<char>> },
    WriteFailed(PathTroubleView),
    Listed(Result<Seq<ScriptEntryView>, Seq<char>>),
    Loaded(Result<Seq<char>, Seq<char>>),
}

impl View for ImportReply {
    type V = ImportReplyView;

    open spec fn view(&self) -> ImportReplyView {
        match *self {
            ImportReply::FolderCreated => ImportReplyView::FolderCreated,
            ImportReply::FolderFailed(trouble) => ImportReplyView::FolderFailed(trouble@),
            ImportReply::Picked(picked) => ImportReplyView::Picked(picked@),
            ImportReply::Target { exists } => ImportReplyView::Target { exists },
            ImportReply::Written { target, shown_name } => ImportReplyView::Written {
                target,
                shown_name: option_view(shown_name),
            },
            ImportReply::WriteFailed(trouble) => ImportReplyView::WriteFailed(trouble@),
            ImportReply::Listed(entries) => ImportReplyView::Listed(outcome_views(entries)),
            ImportReply::Loaded(file) => ImportReplyView::Loaded(outcome_view(file)),
        }
    }
}

// ---------------------------------------------------------------------------------------------
// The rules
// ---------------------------------------------------------------------------------------------

/// A step of an import: the window's memory afterwards, what is waited for, and the next work.
pub ghost struct ImportStep {
    pub app: AppView,
    pub phase: ImportPhaseView,
    pub action: ImportActionView,
}

/// The import is over.
pub open spec fn over(app: AppView) -> ImportStep {
    ImportStep { app, phase: ImportPhaseView::Idle, action: ImportActionView::Finish }
}

/// The reply is one that the import waits for.
pub open spec fn import_awaits(phase: ImportPhaseView, reply: ImportReplyView) -> bool {
    match phase {
        ImportPhaseView::Idle => false,
        ImportPhaseView::CreatingFolder => reply is FolderCreated || reply is FolderFailed,
        ImportPhaseView::Picking => reply is Picked,
        ImportPhaseView::CheckingTarget { .. } => reply is Target,
        ImportPhaseView::Writing => reply is Written || reply is WriteFailed,
        ImportPhaseView::Listing { .. } => reply is Listed,
        ImportPhaseView::LoadingSelected { .. } => reply is Loaded,
        ImportPhaseView::LoadingImported { .. } => reply is Loaded,
    }
}

/// The imported script is selected, and its file read next, if it is in the list.
pub open spec fn select_imported(app: AppView, target: u64) -> ImportStep {
    let index = first_at(app.script_entries, is_file(target));
    let selected = AppView { selected_script: index, ..app };
    match index {
        Some(index) => ImportStep {
            app: selected,
            phase: ImportPhaseView::LoadingImported { index },
            action: ImportActionView::LoadScript { index },
        },
        None => over(selected),
    }
}

/// What follows a picked file; `reserved` tells whether its name is that of a built-in script.
pub open spec fn picked_step(app: AppView, picked: PickedScriptView, reserved: bool) -> ImportStep {
    match picked {
        PickedScriptView::Nothing => over(app),
        PickedScriptView::Unreadable(trouble) => over(
            app.log("Failed to read imported script "@ + trouble.path + ": "@ + trouble.error),
        ),
        PickedScriptView::Read { source, file_name: None } => over(
            app.log("Imported script must have a valid file name"@),
        ),
        PickedScriptView::Read { source, file_name: Some(file_name) } => if reserved {
            over(
                app.log(
                    "Cannot import "@ + file_name
                        + " because that name is reserved for a built-in script"@,
                ),
            )
        } else {
            ImportStep {
                app,
                phase: ImportPhaseView::CheckingTarget { file_name, source },
                action: ImportActionView::CheckTarget { file_name },
            }
        },
    }
}

/// What follows a reply; `reserved` tells whether the name of a picked file is that of a built-in
/// script.
pub open spec fn import_step(
    app: AppView,
    phase: ImportPhaseView,
    reply: ImportReplyView,
    reserved: bool,
) -> ImportStep {
    match (phase, reply) {
        (
            ImportPhaseView::CreatingFolder,
            ImportReplyView::FolderCreated,
        ) => ImportStep {
            app,
            phase: ImportPhaseView::Picking,
            action: ImportActionView::PickScript,
        },
        (ImportPhaseView::CreatingFolder, ImportReplyView::FolderFailed(trouble)) => over(
            app.log("Failed to create scripts directory "@ + trouble.path + ": "@ + trouble.error),
        ),
        (ImportPhaseView::Picking, ImportReplyView::Picked(picked)) => picked_step(
            app,
            picked,
            reserved,
        ),
        (
            ImportPhaseView::CheckingTarget { file_name, source },
            ImportReplyView::Target { exists },
        ) => if exists {
            over(
                app.log(
                    "Cannot import "@ + file_name
                        + " because a script with that name already exists"@,
                ),
            )
        } else {
            ImportStep {
                app,
                phase: ImportPhaseView::Writing,
                action: ImportActionView::WriteScript { file_name, source },
            }
        },
        (ImportPhaseView::Writing, ImportReplyView::WriteFailed(trouble)) => over(
            app.log("Failed to import script to "@ + trouble.path + ": "@ + trouble.error),
        ),
        (
            ImportPhaseView::Writing,
            ImportReplyView::Written { target, shown_name },
        ) => ImportStep {
            app: app.log(
                "Imported script "@ + match shown_name {
                    Some(name) => name,
                    None => "custom.js"@,
                },
            ),
            phase: ImportPhaseView::Listing { target },
            action: ImportActionView::ListScripts,
        },
        (
            ImportPhaseView::Listing { target },
            ImportReplyView::Listed(entries),
        ) => match app.script_to_load(entries) {
            Some(index) => ImportStep {
                app: app.refresh_scripts(entries),
                phase: ImportPhaseView::LoadingSelected { index, target },
                action: ImportActionView::LoadScript { index },
            },
            None => select_imported(app.refresh_scripts(entries), target),
        },
        (
            ImportPhaseView::LoadingSelected { index, target },
            ImportReplyView::Loaded(file),
        ) => select_imported(app.load_script(index, file), target),
        (
            ImportPhaseView::LoadingImported { index },
            ImportReplyView::Loaded(file),
        ) => over(app.load_script(index, file)),
        _ => over(app),
    }
}

/// `reserved` answers whether the name of the picked file is that of a built-in script.
pub open spec fn reserved_answer(reply: ImportReplyView, reserved: bool) -> bool {
    match reply {
        ImportReplyView::Picked(
            PickedScriptView::Read { source, file_name: Some(file_name) },
        ) => built_in_possible(file_name, reserved),
        _ => true,
    }
}

// ---------------------------------------------------------------------------------------------
// The import
// ---------------------------------------------------------------------------------------------

/// An import under way.
pub struct ScriptImport {
    pub phase: ImportPhase,
}

/// The position of the script that is the file with that number.
fn file_index(entries: &Vec<ScriptEntry>, target: u64) -> (index: Option<usize>)
    ensures
        index == first_at(views(entries@), is_file(target)),
{
    let test = |entry: &ScriptEntry| -> (yes: bool)
        ensures
            yes == (entry@.location == ScriptLocationView::File(target)),
        {
            match &entry.location {
                ScriptLocation::File(id) => *id == target,
                ScriptLocation::Bundled(_) => false,
            }
        };
    position(entries, Ghost(is_file(target)), test)
}

impl ScriptImport {
    /// Begins an import: first of all the scripts directory is created.
    pub fn begin() -> (started: (Self, ImportAction))
        ensures
            started.0.phase@ == ImportPhaseView::CreatingFolder,
            started.1@ == ImportActionView::CreateFolder,
    {
        (ScriptImport { phase: ImportPhase::CreatingFolder }, ImportAction::CreateFolder)
    }

    /// Whether the import waits for such a reply.
    pub fn accepts(&self, reply: &ImportReply) -> (yes: bool)
        ensures
            yes == import_awaits(self.phase@, reply@),
    {
        match &self.phase {
            ImportPhase::Idle => false,
            ImportPhase::CreatingFolder => matches!(
                reply,
                ImportReply::FolderCreated | ImportReply::FolderFailed(_)
            ),
            ImportPhase::Picking => matches!(reply, ImportReply::Picked(_)),
            ImportPhase::CheckingTarget { .. } => matches!(reply, ImportReply::Target { .. }),
            ImportPhase::Writing => matches!(
                reply,
                ImportReply::Written { .. } | ImportReply::WriteFailed(_)
            ),
            ImportPhase::Listing { .. } => matches!(reply, ImportReply::Listed(_)),
            ImportPhase::LoadingSelected { .. } => matches!(reply, ImportReply::Loaded(_)),
            ImportPhase::LoadingImported { .. } => matches!(reply, ImportReply::Loaded(_)),
        }
    }

    /// Selects the imported script.
    fn select_imported(&mut self, app: &mut DebuggerApp, target: u64) -> (action: ImportAction)
        ensures
            final(app)@ == select_imported(old(app)@, target).app,
            final(self).phase@ == select_imported(old(app)@, target).phase,
            action@ == select_imported(old(app)@, target).action,
    {
        let index: Option<usize> = file_index(&app.script_entries, target);
        app.selected_script = index;
        match index {
            Some(index) => {
                self.phase = ImportPhase::LoadingImported { index };
                ImportAction::LoadScript { index }
            },
            None => {
                self.phase = ImportPhase::Idle;
                ImportAction::Finish
            },
        }
    }

    /// Takes the picked file; `reserved` tells whether its name is that of a built-in script.
    fn picked(&mut self, app: &mut DebuggerApp, picked: PickedScript, reserved: bool) -> (action:
        ImportAction)
        ensures
            final(app)@ == picked_step(old(app)@, picked@, reserved).app,
            final(self).phase@ == picked_step(old(app)@, picked@, reserved).phase,
            action@ == picked_step(old(app)@, picked@, reserved).action,
    {
        self.phase = ImportPhase::Idle;
        match picked {
            PickedScript::Nothing => ImportAction::Finish,
            PickedScript::Unreadable(trouble) => {
                app.log(
                    concat4(
                        "Failed to read imported script ",
                        trouble.path.as_str(),
                        ": ",
                        trouble.error.as_str(),
                    ),
                );
                ImportAction::Finish
            },
            PickedScript::Read { source, file_name: None } => {
                app.log("Imported script must have a valid file name".to_owned());
                ImportAction::Finish
            },
            PickedScript::Read { source, file_name: Some(file_name) } => {
                if reserved {
                    app.log(
                        concat3(
                            "Cannot import ",
                            file_name.as_str(),
                            " because that name is reserved for a built-in script",
                        ),
                    );
                    ImportAction::Finish
                } else {
                    let action = ImportAction::CheckTarget { file_name: file_name.clone() };
                    self.phase = ImportPhase::CheckingTarget { file_name, source };
                    action
                }
            },
        }
    }

    /// Takes a reply and says what to do next; `reserved` tells whether the name of a picked file
    /// is that of a built-in script.
    pub fn resume_with(&mut self, app: &mut DebuggerApp, reply: ImportReply, reserved: bool) -> (
        action: ImportAction)
        requires
            import_awaits(old(self).phase@, reply@),
        ensures
            final(app)@ == import_step(old(app)@, old(self).phase@, reply@, reserved).app,
            final(self).phase@ == import_step(
                old(app)@,
                old(self).phase@,
                reply@,
                reserved,
            ).phase,
            action@ == import_step(old(app)@, old(self).phase@, reply@, reserved).action,
    {
        let mut phase = ImportPhase::Idle;
        std::mem::swap(&mut phase, &mut self.phase);
        match (phase, reply) {
            (ImportPhase::CreatingFolder, ImportReply::FolderCreated) => {
                self.phase = ImportPhase::Picking;
                ImportAction::PickScript
            },
            (ImportPhase::CreatingFolder, ImportReply::FolderFailed(trouble)) => {
                app.log(
                    concat4(
                        "Failed to create scripts directory ",
                        trouble.path.as_str(),
                        ": ",
                        trouble.error.as_str(),
                    ),
                );
                ImportAction::Finish
            },
            (ImportPhase::Picking, ImportReply::Picked(picked)) => self.picked(
                app,
                picked,
                reserved,
            ),
            (
                ImportPhase::CheckingTarget { file_name, source },
                ImportReply::Target { exists },
            ) => {
                if exists {
                    app.log(
                        concat3(
                            "Cannot import ",
                            file_name.as_str(),
                            " because a script with that name already exists",
                        ),
                    );
                    ImportAction::Finish
                } else {
                    self.phase = ImportPhase::Writing;
                    ImportAction::WriteScript { file_name, source }
                }
            },
            (ImportPhase::Writing, ImportReply::WriteFailed(trouble)) => {
                app.log(
                    concat4(
                        "Failed to import script to ",
                        trouble.path.as_str(),
                        ": ",
                        trouble.error.as_str(),
                    ),
                );
                ImportAction::Finish
            },
            (ImportPhase::Writing, ImportReply::Written { target, shown_name }) => {
                let line = match shown_name {
                    Some(name) => concat2("Imported script ", name.as_str()),
                    None => concat2("Imported script ", "custom.js"),
                };
                app.log(line);
                self.phase = ImportPhase::Listing { target };
                ImportAction::ListScripts
            },
            (ImportPhase::Listing { target }, ImportReply::Listed(entries)) => {
                match app.refresh_scripts(entries) {
                    Some(index) => {
                        self.phase = ImportPhase::LoadingSelected { index, target };
                        ImportAction::LoadScript { index }
                    },
                    None => self.select_imported(app, target),
                }
            },
            (ImportPhase::LoadingSelected { index, target }, ImportReply::Loaded(file)) => {
                app.load_script(index, file);
                self.select_imported(app, target)
            },
            (ImportPhase::LoadingImported { index }, ImportReply::Loaded(file)) => {
                app.load_script(index, file);
                ImportAction::Finish
            },
            _ => ImportAction::Finish,
        }
    }

    /// Takes a reply and says what to do next.
    pub fn resume(&mut self, app: &mut DebuggerApp, reply: ImportReply) -> (action: ImportAction)
        requires
            import_awaits(old(self).phase@, reply@),
        ensures
            exists|reserved: bool| #[trigger]
                reserved_answer(reply@, reserved) && final(app)@ == import_step(
                    old(app)@,
                    old(self).phase@,
                    reply@,
                    reserved,
                ).app && final(self).phase@ == import_step(
                    old(app)@,
                    old(self).phase@,
                    reply@,
                    reserved,
                ).phase && action@ == import_step(
                    old(app)@,
                    old(self).phase@,
                    reply@,
                    reserved,
                ).action,
    {
        let reserved: bool = match &reply {
            ImportReply::Picked(PickedScript::Read { file_name: Some(file_name), .. }) => {
                is_built_in_script_name(file_name.as_str())
            },
            _ => false,
        };
        assert(reserved_answer(reply@, reserved));
        self.resume_with(app, reply, reserved)
    }
}

// ---------------------------------------------------------------------------------------------
// Deleting
// ---------------------------------------------------------------------------------------------

/// A script file to delete.
#[derive(Debug)]
pub struct Deletion {
    pub name: String,
    /// The number that stands for the path of the file.
    pub file: u64,
}

/// What a `Deletion` says.
pub ghost struct DeletionView {
    pub name: Seq<char>,
    pub file: u64,
}

impl View for Deletion {
    type V = DeletionView;

    open spec fn view(&self) -> DeletionView {
        DeletionView { name: self.name@, file: self.file }
    }
}

impl AppView {
    /// The file to delete for the selected script: only an editable script has one.
    pub open spec fn deletion(self) -> Option<DeletionView> {
        match self.selected_script_entry() {
            Some(ScriptEntryView { name, location: ScriptLocationView::File(file), editable }) =>
            if editable {
                Some(DeletionView { name, file })
            } else {
                None
            },
            _ => None,
        }
    }

    /// The selected script is to be deleted; where it cannot be, that is noted.
    pub open spec fn delete_selected_script(self) -> Self {
        if self.deletion() is Some {
            self
        } else {
            match self.selected_script_entry() {
                Some(entry) => self.log(
                    "Built-in script "@ + entry.name + " cannot be deleted"@,
                ),
                None => self.log("Select a script first"@),
            }
        }
    }

    /// A script file was deleted: no script is selected. Where it could not be, that is noted.
    pub open spec fn script_deleted(
        self,
        name: Seq<char>,
        outcome: Result<(), PathTroubleView>,
    ) -> Self {
        match outcome {
            Ok(_) => AppView { selected_script: None, ..self.log("Deleted script "@ + name) },
            Err(trouble) => self.log(
                "Failed to delete script "@ + trouble.path + ": "@ + trouble.error,
            ),
        }
    }
}

impl DebuggerApp {
    /// The file to delete for the selected script.
    pub fn delete_selected_script(&mut self) -> (deletion: Option<Deletion>)
        ensures
            option_view(deletion) == old(self)@.deletion(),
            final(self)@ == old(self)@.delete_selected_script(),
    {
        let entry: ScriptEntry = match self.selected_script_entry() {
            Some(entry) => entry.clone(),
            None => {
                self.log("Select a script first".to_owned());
                return None;
            },
        };
        match entry.location {
            ScriptLocation::File(file) if entry.editable => Some(
                Deletion { name: entry.name, file },
            ),
            _ => {
                self.log(concat3("Built-in script ", entry.name.as_str(), " cannot be deleted"));
                None
            },
        }
    }

    /// Takes the outcome of deleting a script file. Whether the scripts are to be listed anew is
    /// returned.
    pub fn script_deleted(&mut self, name: &str, outcome: Result<(), PathTrouble>) -> (list: bool)
        ensures
            final(self)@ == old(self)@.script_deleted(
                name@,
                match outcome {
                    Ok(_) => Ok(()),
                    Err(trouble) => Err(trouble@),
                },
            ),
            list == outcome is Ok,
    {
        match outcome {
            Ok(_) => {
                self.log(concat2("Deleted script ", name));
                self.selected_script = None;
                true
            },
            Err(trouble) => {
                self.log(
                    concat4(
                        "Failed to delete script ",
                        trouble.path.as_str(),
                        ": ",
                        trouble.error.as_str(),
                    ),
                );
                false
            },
        }
    }
}

// ---------------------------------------------------------------------------------------------
// What imports and deletions keep
// ---------------------------------------------------------------------------------------------

/// How many replies an import still needs at most.
pub open spec fn import_replies_left(phase: ImportPhaseView) -> nat {
    match phase {
        ImportPhaseView::Idle => 0,
        ImportPhaseView::LoadingImported { .. } => 1,
        ImportPhaseView::LoadingSelected { .. } => 2,
        ImportPhaseView::Listing { .. } => 3,
        ImportPhaseView::Writing => 4,
        ImportPhaseView::CheckingTarget { .. } => 5,
        ImportPhaseView::Picking => 6,
        ImportPhaseView::CreatingFolder => 7,
    }
}

/// Every reply brings an import closer to its end. It is at its end exactly when nothing is left to
/// do.
pub proof fn law_imports_come_to_an_end(
    app: AppView,
    phase: ImportPhaseView,
    reply: ImportReplyView,
    reserved: bool,
)
    requires
        import_awaits(phase, reply),
    ensures
        import_replies_left(import_step(app, phase, reply, reserved).phase) < import_replies_left(
            phase,
        ),
        import_step(app, phase, reply, reserved).action is Finish <==> import_step(
            app,
            phase,
            reply,
            reserved,
        ).phase is Idle,
{
}

/// A file is written only under the name and with the source of the picked file, after the name was
/// found to be no built-in script's and to be free in the scripts directory.
pub proof fn law_imports_write_only_free_names(
    app: AppView,
    phase: ImportPhaseView,
    reply: ImportReplyView,
    reserved: bool,
    file_name: Seq<char>,
    source: Seq<char>,
)
    requires
        import_awaits(phase, reply),
    ensures
        import_step(app, phase, reply, reserved).action == (ImportActionView::WriteScript {
            file_name,
            source,
        }) <==> phase == (ImportPhaseView::CheckingTarget { file_name, source }) && reply == (
        ImportReplyView::Target { exists: false }),
        import_step(app, phase, reply, reserved).phase == (ImportPhaseView::CheckingTarget {
            file_name,
            source,
        }) <==> phase is Picking && !reserved && reply == ImportReplyView::Picked(
            PickedScriptView::Read { source, file_name: Some(file_name) },
        ),
{
}

/// An import that ends before a file was written leaves everything but the log as it was, and adds
/// one line to the log at most.
pub proof fn law_refused_import_only_logs(
    app: AppView,
    phase: ImportPhaseView,
    reply: ImportReplyView,
    reserved: bool,
)
    requires
        import_awaits(phase, reply),
        import_step(app, phase, reply, reserved).action is Finish,
        phase is CreatingFolder || phase is Picking || phase is CheckingTarget || phase is Writing,
    ensures
        import_step(app, phase, reply, reserved).app == app || exists|line: Seq<char>|
            import_step(app, phase, reply, reserved).app == #[trigger] app.log(line),
{
}

/// An imported script that is then listed, and whose file can be read, is the selected script.
pub proof fn law_imported_script_is_selected(
    app: AppView,
    target: u64,
    entries: Seq<ScriptEntryView>,
    at: int,
    selected_file: Result<Seq<char>, Seq<char>>,
    source: Seq<char>,
)
    requires
        0 <= at < entries.len() <= usize::MAX,
        entries[at].location == ScriptLocationView::File(target),
    ensures
        ({
            let listed = import_step(
                app,
                ImportPhaseView::Listing { target },
                ImportReplyView::Listed(Ok(entries)),
                false,
            );
            let found = import_step(
                listed.app,
                listed.phase,
                ImportReplyView::Loaded(selected_file),
                false,
            );
            let done = import_step(
                found.app,
                found.phase,
                ImportReplyView::Loaded(Ok(source)),
                false,
            );
            &&& listed.action is LoadScript
            &&& found.action is LoadScript
            &&& done.action is Finish
            &&& done.app.selected_script_entry() matches Some(entry) && entry.location
                == ScriptLocationView::File(target) && done.app.script_name == entry.name
            &&& done.app.script_source == source
        }),
{
    let holds = is_file(target);
    lemma_first_at(entries, holds);
    assert(holds(entries[at]));
}

/// A file is deleted only for a selected script that is editable, and is that script's file. Of the
/// scripts on offer that is never a bundled one, nor one with a name that was found to be
/// reserved.
pub proof fn law_built_in_scripts_are_not_deleted(
    sources: BundledSources,
    files: Seq<ListedFile>,
    app: AppView,
)
    requires
        catalog_possible(sources, files, app.script_entries),
    ensures
        app.deletion() matches Some(deletion) ==> {
            &&& app.selected_script_entry() matches Some(entry) && entry.editable && entry.name
                == deletion.name && entry.location == ScriptLocationView::File(deletion.file)
            &&& built_in_possible(deletion.name, false)
            &&& !bundled_entries(sources).contains(app.selected_script_entry()->0)
        },
        app.can_delete_script() ==> app.deletion() is Some,
{
    law_built_in_scripts_are_kept(sources, files, app.script_entries);
    if app.selected_script_is_editable() {
        assert(app.script_entries[app.selected_script->0 as int].editable);
    }
}

} // verus!
