//! Choosing a script: reading the list, loading a source, and picking the script for a target.
use vstd::prelude::*;
use vstd::utf8::is_ascii_chars;

use crate::catalog::{
    bundled_entries, catalog_possible, file_entries, read_script_source, recommendation_possible,
    recommended_script_for_target, reserved_possible, source_of, BundledSources,
    ListedFile, ScriptEntry, ScriptEntryView, ScriptLocation, ScriptLocationView,
    DEFAULT_SCRIPT_NAME,
};
use crate::debugger::{has_name, has_similar_name, AppView, DebuggerApp};
use crate::lists::{first_at, lemma_first_at, position};
use crate::order::{
    arranged, lemma_every_position_has_a_place, lemma_text_total, sorted_stably, Ranked,
};
use crate::text::{
    ascii_lower, ascii_lowercase, concat2, concat4, lemma_nothing_to_trim, lemma_views_push,
    lowercase_of, option_view, outcome_view, outcome_views, same, views,
};

verus! {

broadcast use lemma_views_push;

impl AppView {
    /// The number of the file that holds the source of the script at `index`.
    pub open spec fn script_file(self, index: usize) -> Option<u64> {
        if index < self.script_entries.len() {
            match self.script_entries[index as int].location {
                ScriptLocationView::File(id) => Some(id),
                ScriptLocationView::Bundled(_) => None,
            }
        } else {
            None
        }
    }

    /// The script at `index` becomes the selected one; where its file could not be read, that is
    /// noted and nothing else changes.
    pub open spec fn load_script(self, index: usize, file: Result<Seq<char>, Seq<char>>) -> Self {
        if index < self.script_entries.len() {
            let entry = self.script_entries[index as int];
            match source_of(entry, file) {
                Ok(source) => AppView {
                    selected_script: Some(index),
                    script_name: entry.name,
                    script_source: source,
                    ..self
                },
                Err(error) => self.log("Failed to read script "@ + entry.name + ": "@ + error),
            }
        } else {
            self
        }
    }

    /// Where the selected script stands in a new list.
    pub open spec fn selection_in(self, entries: Seq<ScriptEntryView>) -> Option<usize> {
        match self.selected_script_entry() {
            Some(entry) => first_at(entries, has_name(entry.name)),
            None => None,
        }
    }

    /// A new list of scripts: the selected script stays selected by its name. Where the list could
    /// not be had, that is noted.
    pub open spec fn refresh_scripts(
        self,
        entries: Result<Seq<ScriptEntryView>, Seq<char>>,
    ) -> Self {
        match entries {
            Ok(entries) => AppView {
                script_entries: entries,
                selected_script: self.selection_in(entries),
                ..self
            },
            Err(error) => self.log("Failed to load scripts: "@ + error),
        }
    }

    /// The script to load after a new list was read: the selected one, or else the first.
    pub open spec fn script_to_load(
        self,
        entries: Result<Seq<ScriptEntryView>, Seq<char>>,
    ) -> Option<usize> {
        match entries {
            Ok(entries) => match self.selection_in(entries) {
                Some(index) => Some(index),
                None => if entries.len() > 0 {
                    Some(0)
                } else {
                    None
                },
            },
            Err(_) => None,
        }
    }

    /// The script with that name is loaded, if there is one.
    pub open spec fn select_script_by_name(
        self,
        name: Seq<char>,
        file: Result<Seq<char>, Seq<char>>,
    ) -> Self {
        match self.script_named(name) {
            Some(index) => self.load_script(index, file),
            None => self,
        }
    }

    /// The script that is recommended for a target is loaded, if there is one, which is noted.
    pub open spec fn auto_select_script(
        self,
        target: Seq<char>,
        recommended: Option<Seq<char>>,
        file: Result<Seq<char>, Seq<char>>,
    ) -> Self {
        match recommended {
            Some(name) => if self.script_named(name) is Some {
                self.select_script_by_name(name, file).log(
                    "Auto-selected script "@ + name + " for "@ + target,
                )
            } else {
                self
            },
            None => self,
        }
    }

    /// The number of the file that holds the source of the recommended script.
    pub open spec fn recommended_file(self, recommended: Option<Seq<char>>) -> Option<u64> {
        match recommended {
            Some(name) => match self.script_named(name) {
                Some(index) => self.script_file(index),
                None => None,
            },
            None => None,
        }
    }
}

/// The position of the first script with exactly that name.
fn name_index(entries: &Vec<ScriptEntry>, name: &str) -> (index: Option<usize>)
    ensures
        index == first_at(views(entries@), has_name(name@)),
{
    let test = |entry: &ScriptEntry| -> (yes: bool)
        ensures
            yes == (entry@.name == name@),
        {
            same(entry.name.as_str(), name)
        };
    position(entries, Ghost(has_name(name@)), test)
}

impl DebuggerApp {
    /// The number of the file that holds the source of the script at `index`; there is none for a
    /// bundled script.
    pub fn script_file(&self, index: usize) -> (id: Option<u64>)
        ensures
            id == self@.script_file(index),
    {
        if index < self.script_entries.len() {
            match &self.script_entries[index].location {
                ScriptLocation::File(id) => Some(*id),
                ScriptLocation::Bundled(_) => None,
            }
        } else {
            None
        }
    }

    /// Loads the script at `index`, given what reading its file gave.
    pub fn load_script(&mut self, index: usize, file: Result<String, String>)
        ensures
            final(self)@ == old(self)@.load_script(index, outcome_view(file)),
    {
        if index < self.script_entries.len() {
            let entry: ScriptEntry = self.script_entries[index].clone();
            match read_script_source(&entry, file) {
                Ok(source) => {
                    self.selected_script = Some(index);
                    self.script_name = entry.name;
                    self.script_source = source;
                },
                Err(error) => {
                    self.logs.push(
                        concat4(
                            "Failed to read script ",
                            entry.name.as_str(),
                            ": ",
                            error.as_str(),
                        ),
                    );
                },
            }
        }
    }

    /// Takes a new list of scripts. The script to load next is returned.
    pub fn refresh_scripts(&mut self, entries: Result<Vec<ScriptEntry>, String>) -> (load: Option<
        usize,
    >)
        ensures
            final(self)@ == old(self)@.refresh_scripts(outcome_views(entries)),
            load == old(self)@.script_to_load(outcome_views(entries)),
    {
        match entries {
            Ok(entries) => {
                let selected: Option<usize> = match self.selected_script_entry() {
                    Some(entry) => name_index(&entries, entry.name.as_str()),
                    None => None,
                };
                let load: Option<usize> = match selected {
                    Some(index) => Some(index),
                    None => if entries.len() > 0 {
                        Some(0)
                    } else {
                        None
                    },
                };
                self.script_entries = entries;
                self.selected_script = selected;
                load
            },
            Err(error) => {
                self.logs.push(concat2("Failed to load scripts: ", error.as_str()));
                None
            },
        }
    }

    /// Loads the script with that name, given what reading its file gave. Whether there is such a
    /// script is returned.
    pub fn select_script_by_name(&mut self, script_name: &str, file: Result<String, String>) -> (
        found: bool)
        ensures
            final(self)@ == old(self)@.select_script_by_name(script_name@, outcome_view(file)),
            found == old(self)@.script_named(script_name@) is Some,
    {
        match self.script_index(script_name) {
            Some(index) => {
                self.load_script(index, file);
                true
            },
            None => false,
        }
    }

    /// Loads the recommended script, given what reading its file gave.
    pub fn auto_select_script(
        &mut self,
        target_name: &str,
        recommended: Option<&str>,
        file: Result<String, String>,
    )
        ensures
            final(self)@ == old(self)@.auto_select_script(
                target_name@,
                option_view(recommended),
                outcome_view(file),
            ),
    {
        match recommended {
            Some(name) => {
                if self.select_script_by_name(name, file) {
                    self.logs.push(concat4("Auto-selected script ", name, " for ", target_name));
                }
            },
            None => {},
        }
    }

    /// The number of the file that holds the source of the script that is recommended for a
    /// target.
    pub fn recommended_script_file(&self, target_name: &str) -> (id: Option<u64>)
        ensures
            exists|recommended: Option<Seq<char>>| #[trigger]
                recommendation_possible(target_name@, recommended) && id == self@.recommended_file(
                    recommended,
                ),
    {
        let recommended = recommended_script_for_target(target_name);
        assert(recommendation_possible(target_name@, option_view(recommended)));
        match recommended {
            Some(name) => match self.script_index(name) {
                Some(index) => self.script_file(index),
                None => None,
            },
            None => None,
        }
    }

    /// Loads the script that is recommended for a target, given what reading its file gave.
    pub fn auto_select_script_for_target(
        &mut self,
        target_name: &str,
        file: Result<String, String>,
    )
        ensures
            exists|recommended: Option<Seq<char>>| #[trigger]
                recommendation_possible(target_name@, recommended) && final(self)@ == old(
                    self,
                )@.auto_select_script(target_name@, recommended, outcome_view(file)),
    {
        let recommended = recommended_script_for_target(target_name);
        assert(recommendation_possible(target_name@, option_view(recommended)));
        self.auto_select_script(target_name, recommended, file);
    }
}

// ---------------------------------------------------------------------------------------------
// Which script is found
// ---------------------------------------------------------------------------------------------

/// Texts that differ in the case of `A` to `Z` alone have the same lowercase form, where one of
/// them is within ASCII.
proof fn lemma_similar_texts(a: Seq<char>, b: Seq<char>)
    requires
        is_ascii_chars(a),
        ascii_lowercase(a) == ascii_lowercase(b),
    ensures
        lowercase_of(a) == lowercase_of(b),
{
    assert(a.len() == ascii_lowercase(a).len() && b.len() == ascii_lowercase(b).len());
    assert forall|i: int| 0 <= i < b.len() implies '\0' <= #[trigger] b[i] && b[i] <= '\u{7f}' by {
        assert(ascii_lowercase(a)[i] == ascii_lower(a[i]));
        assert(ascii_lowercase(b)[i] == ascii_lower(b[i]));
        assert('\0' <= a[i] && a[i] <= '\u{7f}');
    }
    assert(is_ascii_chars(b));
}

/// The names of the bundled scripts are within ASCII, and no two of them are of the same length.
proof fn lemma_bundled_names(sources: BundledSources)
    ensures
        forall|i: int|
            0 <= i < 4 ==> is_ascii_chars((#[trigger] bundled_entries(sources)[i]).name),
        forall|i: int, j: int|
            0 <= i < j < 4 ==> (#[trigger] bundled_entries(sources)[i]).name.len() != (
            #[trigger] bundled_entries(sources)[j]).name.len(),
        bundled_entries(sources).len() == 4,
{
    reveal_strlit("Geode.js");
    reveal_strlit("maciOS.js");
    reveal_strlit("universal.js");
    reveal_strlit("UTM-DolphiniOS-Flycast.js");
    assert(is_ascii_chars("Geode.js"@));
    assert(is_ascii_chars("maciOS.js"@));
    assert(is_ascii_chars("universal.js"@));
    assert(is_ascii_chars("UTM-DolphiniOS-Flycast.js"@));
}

/// Looking for a bundled script by its name finds that script itself, whatever files the scripts
/// directory holds.
pub proof fn law_bundled_script_is_found(
    sources: BundledSources,
    files: Seq<ListedFile>,
    app: AppView,
    which: int,
)
    requires
        catalog_possible(sources, files, app.script_entries),
        app.script_entries.len() <= usize::MAX,
        0 <= which < bundled_entries(sources).len(),
    ensures
        ({
            let wanted = bundled_entries(sources)[which];
            &&& app.script_named(wanted.name) matches Some(index)
                && index < app.script_entries.len() && app.script_entries[index as int] == wanted
        }),
{
    let entries = app.script_entries;
    let bundled = bundled_entries(sources);
    let wanted = bundled[which];
    let reserved = choose|reserved: Seq<bool>| #[trigger]
        reserved_possible(files, reserved) && sorted_stably::<ScriptEntry>(
            bundled + file_entries(files, reserved),
            entries,
        );
    let all = bundled + file_entries(files, reserved);
    let origin = choose|origin: Seq<int>| arranged::<ScriptEntry>(all, entries, origin, 0);
    lemma_bundled_names(sources);
    lemma_every_position_has_a_place::<ScriptEntry>(all, entries, origin);
    assert(origin.contains(which));
    let place = choose|place: int| 0 <= place < origin.len() && origin[place] == which;
    assert(entries[place] == wanted);
    let holds = has_similar_name(wanted.name);
    lemma_first_at(entries, holds);
    assert(holds(entries[place]));
    let at = first_at(entries, holds)->0 as int;
    if at < place {
        let found = entries[at];
        lemma_similar_texts(wanted.name, found.name);
        lemma_text_total(lowercase_of(found.name), lowercase_of(found.name));
        assert(ScriptEntry::ranks(entries[place], entries[at]));
        assert(origin[at] < which);
        assert(found == bundled[origin[at]]);
        assert(ascii_lowercase(found.name).len() == ascii_lowercase(wanted.name).len());
    }
}

/// Choosing a target for which a script is recommended selects the bundled script of that name,
/// needs no file for it, and notes it.
pub proof fn law_recommended_script_is_selected(
    sources: BundledSources,
    files: Seq<ListedFile>,
    app: AppView,
    target: Seq<char>,
    name: Seq<char>,
    file: Result<Seq<char>, Seq<char>>,
)
    requires
        catalog_possible(sources, files, app.script_entries),
        app.script_entries.len() <= usize::MAX,
        recommendation_possible(target, Some(name)),
    ensures
        ({
            let after = app.auto_select_script(target, Some(name), file);
            &&& app.recommended_file(Some(name)) is None
            &&& after.selected_script_entry() matches Some(entry) && entry.name == name
                && entry.location == ScriptLocationView::Bundled(after.script_source)
                && after.script_name == name
            &&& after.logs == app.logs.push("Auto-selected script "@ + name + " for "@ + target)
        }),
{
    let entries = bundled_entries(sources);
    assert(entries[0].name == "Geode.js"@);
    assert(entries[1].name == "maciOS.js"@);
    assert(entries[2].name == "universal.js"@);
    assert(entries[3].name == "UTM-DolphiniOS-Flycast.js"@);
    law_bundled_script_is_found(sources, files, app, 0);
    law_bundled_script_is_found(sources, files, app, 1);
    law_bundled_script_is_found(sources, files, app, 2);
    law_bundled_script_is_found(sources, files, app, 3);
}

/// At the start, once the scripts were listed and the first one loaded, the default script can be
/// selected, and it is the bundled one.
pub proof fn law_default_script_is_selected_at_the_start(
    sources: BundledSources,
    files: Seq<ListedFile>,
    entries: Seq<ScriptEntryView>,
    now: u64,
    first_file: Result<Seq<char>, Seq<char>>,
    default_file: Result<Seq<char>, Seq<char>>,
)
    requires
        catalog_possible(sources, files, entries),
        entries.len() <= usize::MAX,
    ensures
        AppView::initial(now).script_to_load(Ok(entries)) == Some(0usize),
        ({
            let ready = AppView::initial(now).refresh_scripts(Ok(entries)).load_script(
                0,
                first_file,
            ).select_script_by_name(DEFAULT_SCRIPT_NAME@, default_file);
            &&& ready.selected_script_entry() matches Some(entry) && entry
                == bundled_entries(sources)[2]
            &&& ready.current_script() == Some(("universal.js"@, sources.universal@))
        }),
{
    let listed = AppView::initial(now).refresh_scripts(Ok(entries)).load_script(0, first_file);
    law_bundled_script_is_found(sources, files, listed, 2);
    assert(bundled_entries(sources)[2].name == "universal.js"@);
    reveal_strlit("universal.js");
    lemma_nothing_to_trim("universal.js"@);
}

} // verus!
