//! Laws on the scripts on offer, on the keys by which they are known, and on running them.
use vstd::prelude::*;

use crate::catalog::{
    built_in_possible, bundled_entries, catalog_possible, file_entries, file_entry, final_part,
    is_script, key_of, key_possible, key_with, law_bundled_names_are_reserved,
    law_portable_names_are_determined, offered_name, portable, portable_key,
    recommendation_possible, reserved_key, reserved_possible, script_for, script_for_key,
    slash_stem, source_of, stem_possible, without_extension, BundledSources, ListedFile,
    ScriptEntry, ScriptEntryView, ScriptLocationView,
};
use crate::device::WorkerEventView;
use crate::laws::texts::{law_sorting_is_a_stable_rearrangement, law_tail_follows_the_last_mark};
use crate::order::{law_sort_keeps_items, sorted_stably, text_at_most, Ranked};
use crate::scripts::{
    cancellation, closing, command_event, going_on, opening, prelude_failure_text, script_end,
};
use crate::text::{ascii_lower, is_ascii_alnum, lowercase_of, occurs};
use crate::transfer::{batch, ranges};

verus! {

// ---------------------------------------------------------------------------------------------
// Names and keys
// ---------------------------------------------------------------------------------------------

/// An extension is what stands behind the last dot, unless nothing stands before that dot.
pub proof fn law_stem_stands_before_the_last_dot(base: Seq<char>, extension: Seq<char>)
    requires
        !extension.contains('.'),
    ensures
        base.len() > 0 ==> without_extension(base.push('.') + extension) == base,
        without_extension(seq!['.'] + extension) == seq!['.'] + extension,
        without_extension(extension) == extension,
{
    law_tail_follows_the_last_mark(base, extension, '.');
    let whole = base.push('.') + extension;
    assert(whole.take(base.len() as int) =~= base);
    law_tail_follows_the_last_mark(Seq::empty(), extension, '.');
    assert(Seq::<char>::empty().push('.') + extension =~= seq!['.'] + extension);
}

/// The stem of a path is that of its last part; slashes behind it do not count.
pub proof fn law_stem_is_that_of_the_last_part(folder: Seq<char>, name: Seq<char>)
    requires
        name.len() > 0,
        !name.contains('/'),
        name != seq!['.'],
    ensures
        name != seq!['.', '.'] ==> {
            &&& slash_stem(name) == Some(without_extension(name))
            &&& slash_stem(folder.push('/') + name) == Some(without_extension(name))
            &&& slash_stem((folder.push('/') + name).push('/')) == Some(without_extension(name))
        },
        name == seq!['.', '.'] ==> slash_stem(folder.push('/') + name) is None,
{
    law_tail_follows_the_last_mark(folder, name, '/');
    let path = folder.push('/') + name;
    let nothing = Seq::<char>::empty();
    law_tail_follows_the_last_mark(path, nothing, '/');
    assert(path.push('/') + nothing =~= path.push('/'));
    assert(path.push('/').take(path.len() as int) =~= path);
    assert(final_part(path) == name);
    reveal_with_fuel(final_part, 2);
    assert(final_part(path.push('/')) == name);
}

/// A slash, or a slash and a dot, behind a path do not change its stem; an empty path and a dot
/// alone have none.
pub proof fn law_slashes_and_dots_behind_a_path_do_not_count(path: Seq<char>)
    ensures
        slash_stem(path.push('/')) == slash_stem(path),
        slash_stem(path.push('/').push('.')) == slash_stem(path),
        slash_stem(Seq::empty()) is None,
        slash_stem(seq!['.']) is None,
{
    let nothing = Seq::<char>::empty();
    let dot = seq!['.'];
    law_tail_follows_the_last_mark(path, nothing, '/');
    assert(path.push('/') + nothing =~= path.push('/'));
    assert(path.push('/').take(path.len() as int) =~= path);
    law_tail_follows_the_last_mark(path, dot, '/');
    assert(path.push('/') + dot =~= path.push('/').push('.'));
    assert(path.push('/').push('.').take(path.len() as int) =~= path);
    law_tail_follows_the_last_mark(nothing, dot, '/');
    reveal_with_fuel(final_part, 2);
}

/// A key is the letters and digits of a stem, in order, each written small.
pub proof fn law_key_is_the_small_letters_and_digits(stem: Seq<char>)
    ensures
        key_of(stem) == stem.filter(|c: char| is_ascii_alnum(c)).map_values(
            |c: char| ascii_lower(c),
        ),
    decreases stem.len(),
{
    reveal(Seq::filter);
    let holds = |c: char| is_ascii_alnum(c);
    let small = |c: char| ascii_lower(c);
    if stem.len() > 0 {
        law_key_is_the_small_letters_and_digits(stem.drop_last());
        let before = stem.drop_last().filter(holds);
        assert(before.push(stem.last()).map_values(small) =~= before.map_values(small).push(
            ascii_lower(stem.last()),
        ));
    }
    assert(key_of(stem) =~= stem.filter(holds).map_values(small));
}

/// The key of a name is that of its stem, and of the whole name where it has none.
pub proof fn law_key_is_that_of_the_stem(name: Seq<char>, stem: Seq<char>)
    ensures
        key_with(name, Some(stem)) == key_of(stem),
        key_with(name, None) == key_of(name),
        slash_stem(name) is Some ==> portable_key(name) == key_of(slash_stem(name)->0),
        slash_stem(name) is None ==> portable_key(name) == key_of(name),
{
}

/// Exactly the keys of the bundled scripts' names are reserved.
pub proof fn law_reserved_keys(key: Seq<char>, sources: BundledSources)
    ensures
        reserved_key(key) <==> exists|i: int|
            0 <= i < bundled_entries(sources).len() && key == portable_key(
                (#[trigger] bundled_entries(sources)[i]).name,
            ),
        reserved_key(key) <==> key == "geode"@ || key == "macios"@ || key == "universal"@ || key
            == "utmdolphiniosflycast"@,
{
    let entries = bundled_entries(sources);
    law_bundled_names_are_reserved();
    assert(entries[0].name == "Geode.js"@ && entries[1].name == "maciOS.js"@);
    assert(entries[2].name == "universal.js"@ && entries[3].name == "UTM-DolphiniOS-Flycast.js"@);
}

/// Only the listed keys have a script, each its own.
pub proof fn law_scripts_by_key(key: Seq<char>)
    ensures
        script_for_key(key) == Some("maciOS.js"@) <==> key == "macios"@,
        script_for_key(key) == Some("universal.js"@) <==> key == "amethyst"@ || key == "melonx"@
            || key == "xenios"@ || key == "melocafe"@ || key == "manic emu"@,
        script_for_key(key) == Some("Geode.js"@) <==> key == "geode"@,
        script_for_key(key) == Some("UTM-DolphiniOS-Flycast.js"@) <==> key == "utm"@ || key
            == "dolphinios"@ || key == "flycast"@,
        script_for_key(key) is None <==> !(key == "macios"@ || key == "amethyst"@ || key
            == "melonx"@ || key == "xenios"@ || key == "melocafe"@ || key == "manic emu"@ || key
            == "geode"@ || key == "utm"@ || key == "dolphinios"@ || key == "flycast"@),
{
    reveal_strlit("macios");
    reveal_strlit("amethyst");
    reveal_strlit("melonx");
    reveal_strlit("xenios");
    reveal_strlit("melocafe");
    reveal_strlit("manic emu");
    reveal_strlit("geode");
    reveal_strlit("utm");
    reveal_strlit("dolphinios");
    reveal_strlit("flycast");
    reveal_strlit("maciOS.js");
    reveal_strlit("universal.js");
    reveal_strlit("Geode.js");
    reveal_strlit("UTM-DolphiniOS-Flycast.js");
    assert("macios"@.len() == 6 && "melonx"@.len() == 6 && "xenios"@.len() == 6);
    assert("amethyst"@.len() == 8 && "melocafe"@.len() == 8 && "manic emu"@.len() == 9);
    assert("geode"@.len() == 5 && "utm"@.len() == 3 && "dolphinios"@.len() == 10);
    assert("flycast"@.len() == 7);
    assert("macios"@[0] == 'm' && "macios"@[1] == 'a' && "melonx"@[1] == 'e' && "xenios"@[0]
        == 'x');
    assert("maciOS.js"@.len() == 9 && "universal.js"@.len() == 12 && "Geode.js"@.len() == 8
        && "UTM-DolphiniOS-Flycast.js"@.len() == 25);
}

/// Exactly three full names tell an app whose key does not; every other target goes by its key.
pub proof fn law_scripts_by_full_name(target: Seq<char>, key: Seq<char>)
    ensures
        target == "MeloCaf\u{e9}"@ || target == "Manic EMU"@ ==> script_for(target, key) == Some(
            "universal.js"@,
        ),
        target == "Flycast-iOS 26 fork"@ ==> script_for(target, key) == Some(
            "UTM-DolphiniOS-Flycast.js"@,
        ),
        target != "MeloCaf\u{e9}"@ && target != "Manic EMU"@ && target != "Flycast-iOS 26 fork"@
            ==> script_for(target, key) == script_for_key(key),
{
    reveal_strlit("MeloCaf\u{e9}");
    reveal_strlit("Manic EMU");
    reveal_strlit("Flycast-iOS 26 fork");
    assert("MeloCaf\u{e9}"@.len() == 8 && "Manic EMU"@.len() == 9 && "Flycast-iOS 26 fork"@.len()
        == 19);
}

/// Of a name without a backslash, which starts neither like a drive nor with two slashes, it is
/// fixed whether it is reserved and which script is recommended for it: both go by the key of what
/// stands behind the last slash, and the recommendation by the full name before that.
pub proof fn law_plain_names_are_judged_by_their_key(
    name: Seq<char>,
    built_in: bool,
    script: Option<Seq<char>>,
)
    requires
        !name.contains('\\'),
        name.len() >= 2 ==> name[1] != ':' && !(name[0] == '/' && name[1] == '/'),
    ensures
        built_in_possible(name, built_in) <==> built_in == reserved_key(portable_key(name)),
        recommendation_possible(name, script) <==> script == script_for(name, portable_key(name)),
{
    assert(portable(name)) by {
        if name.len() >= 2 {
            assert(name[0] != '\\' && name[1] != '\\');
        }
    }
    assert(stem_possible(name, slash_stem(name)));
    assert(key_possible(name, portable_key(name)));
    if built_in_possible(name, built_in) {
        law_portable_names_are_determined(
            name,
            built_in,
            script_for(name, portable_key(name)),
        );
    }
    if recommendation_possible(name, script) {
        law_portable_names_are_determined(name, reserved_key(portable_key(name)), script);
    }
}

// ---------------------------------------------------------------------------------------------
// The scripts on offer
// ---------------------------------------------------------------------------------------------

/// The bundled scripts are four, each with its own source, and none can be deleted.
pub proof fn law_bundled_scripts(sources: BundledSources, i: int)
    requires
        0 <= i < bundled_entries(sources).len(),
    ensures
        bundled_entries(sources).len() == 4,
        !bundled_entries(sources)[i].editable,
        i == 0 ==> bundled_entries(sources)[i].name == "Geode.js"@
            && bundled_entries(sources)[i].location == ScriptLocationView::Bundled(sources.geode@),
        i == 1 ==> bundled_entries(sources)[i].name == "maciOS.js"@
            && bundled_entries(sources)[i].location == ScriptLocationView::Bundled(sources.macios@),
        i == 2 ==> bundled_entries(sources)[i].name == "universal.js"@
            && bundled_entries(sources)[i].location == ScriptLocationView::Bundled(
            sources.universal@,
        ),
        i == 3 ==> bundled_entries(sources)[i].name == "UTM-DolphiniOS-Flycast.js"@
            && bundled_entries(sources)[i].location == ScriptLocationView::Bundled(
            sources.utm_dolphinios_flycast@,
        ),
{
}

/// Listing one more file adds one entry where its extension is `js`, with its own name and number,
/// and none otherwise.
pub proof fn law_each_script_file_is_offered(
    files: Seq<ListedFile>,
    reserved: Seq<bool>,
    file: ListedFile,
    taken: bool,
)
    requires
        reserved.len() == files.len(),
    ensures
        ({
            let more = file_entries(files.push(file), reserved.push(taken));
            let before = file_entries(files, reserved);
            let script = file.extension matches Some(extension) && extension@ == "js"@;
            &&& !script ==> more == before
            &&& script ==> {
                &&& more.len() == before.len() + 1
                &&& more.drop_last() == before
                &&& more.last().location == ScriptLocationView::File(file.id)
                &&& more.last().editable == !taken
                &&& file.file_name matches Some(name) ==> more.last().name == name@
                &&& file.file_name is None ==> more.last().name == "script.js"@
            }
        }),
        file_entries(Seq::empty(), Seq::empty()).len() == 0,
{
    let all = files.push(file);
    let answers = reserved.push(taken);
    assert(all.drop_last() =~= files);
    lemma_answers_beyond_do_not_count(files, reserved, answers);
    let before = file_entries(files, reserved);
    assert(before.push(file_entry(file, taken)).drop_last() =~= before);
}

proof fn lemma_answers_beyond_do_not_count(
    files: Seq<ListedFile>,
    reserved: Seq<bool>,
    more: Seq<bool>,
)
    requires
        reserved.len() >= files.len(),
        more.len() >= files.len(),
        forall|i: int| 0 <= i < files.len() ==> #[trigger] reserved[i] == more[i],
    ensures
        file_entries(files, more) == file_entries(files, reserved),
    decreases files.len(),
{
    if files.len() > 0 {
        lemma_answers_beyond_do_not_count(files.drop_last(), reserved, more);
        assert(reserved[files.len() - 1] == more[files.len() - 1]);
    }
}

proof fn lemma_file_is_offered(files: Seq<ListedFile>, reserved: Seq<bool>, at: int)
    requires
        0 <= at < files.len(),
        is_script(files[at]),
    ensures
        file_entries(files, reserved).contains(file_entry(files[at], reserved[at])),
    decreases files.len(),
{
    let shorter = files.drop_last();
    let all = file_entries(files, reserved);
    let before = file_entries(shorter, reserved);
    if at < shorter.len() {
        lemma_file_is_offered(shorter, reserved, at);
        let i = choose|i: int|
            0 <= i < before.len() && before[i] == file_entry(files[at], reserved[at]);
        assert(all[i] == before[i]);
    } else {
        assert(all[all.len() - 1] == file_entry(files[at], reserved[at]));
    }
}

proof fn lemma_offered_is_a_file(
    files: Seq<ListedFile>,
    reserved: Seq<bool>,
    entry: ScriptEntryView,
) -> (at: int)
    requires
        file_entries(files, reserved).contains(entry),
    ensures
        0 <= at < files.len(),
        is_script(files[at]),
        entry == file_entry(files[at], reserved[at]),
    decreases files.len(),
{
    let shorter = files.drop_last();
    let all = file_entries(files, reserved);
    let before = file_entries(shorter, reserved);
    let i = choose|i: int| 0 <= i < all.len() && all[i] == entry;
    if i < before.len() {
        assert(before[i] == entry);
        assert(before.contains(entry));
        lemma_offered_is_a_file(shorter, reserved, entry)
    } else {
        files.len() - 1
    }
}

/// Every file with the extension `js` is on offer under its name and number, and can be deleted
/// exactly where its name is not reserved; whatever else is on offer is bundled.
pub proof fn law_offered_scripts_are_the_files_and_the_bundled(
    sources: BundledSources,
    files: Seq<ListedFile>,
    entries: Seq<ScriptEntryView>,
    at: int,
    id: u64,
)
    requires
        catalog_possible(sources, files, entries),
    ensures
        0 <= at < files.len() && (files[at].extension matches Some(extension) && extension@ == "js"@)
            ==> exists|i: int|
            0 <= i < entries.len() && (#[trigger] entries[i]).location == ScriptLocationView::File(
                files[at].id,
            ) && entries[i].name == offered_name(files[at]) && built_in_possible(
                offered_name(files[at]),
                !entries[i].editable,
            ),
        0 <= at < entries.len() && entries[at].location == ScriptLocationView::File(id)
            ==> exists|i: int|
            0 <= i < files.len() && (#[trigger] files[i]).id == id && offered_name(files[i])
                == entries[at].name && (files[i].extension matches Some(extension) && extension@
                == "js"@) && built_in_possible(entries[at].name, !entries[at].editable),
        0 <= at < entries.len() && entries[at].location is Bundled ==> bundled_entries(
            sources,
        ).contains(entries[at]),
{
    let bundled = bundled_entries(sources);
    let reserved = choose|reserved: Seq<bool>| #[trigger]
        reserved_possible(files, reserved) && sorted_stably::<ScriptEntry>(
            bundled + file_entries(files, reserved),
            entries,
        );
    let listed = file_entries(files, reserved);
    let all = bundled + listed;
    law_sort_keeps_items::<ScriptEntry>(all, entries);
    if 0 <= at < files.len() && is_script(files[at]) {
        lemma_file_is_offered(files, reserved, at);
        let wanted = file_entry(files[at], reserved[at]);
        let i = choose|i: int| 0 <= i < listed.len() && listed[i] == wanted;
        assert(all[bundled.len() + i] == wanted);
        assert(all.contains(wanted));
        assert(entries.contains(wanted));
        let j = choose|j: int| 0 <= j < entries.len() && entries[j] == wanted;
        assert(entries[j].location == ScriptLocationView::File(files[at].id));
        assert(built_in_possible(offered_name(files[at]), reserved[at]));
    }
    if 0 <= at < entries.len() {
        let entry = entries[at];
        assert(entries.contains(entry));
        assert(all.contains(entry));
        let k = choose|k: int| 0 <= k < all.len() && all[k] == entry;
        if k < bundled.len() {
            assert(bundled[k] == entry);
        } else {
            assert(listed[k - bundled.len()] == entry);
            assert(listed.contains(entry));
            let i = lemma_offered_is_a_file(files, reserved, entry);
            assert(built_in_possible(offered_name(files[i]), reserved[i]));
            assert(files[i].id == files[i].id);
        }
    }
}

/// As many scripts are on offer as are bundled and as there are files with the extension `js`.
pub proof fn law_offered_scripts_are_counted(
    sources: BundledSources,
    files: Seq<ListedFile>,
    entries: Seq<ScriptEntryView>,
)
    requires
        catalog_possible(sources, files, entries),
    ensures
        entries.len() == 4 + files.filter(
            |file: ListedFile| file.extension matches Some(extension) && extension@ == "js"@,
        ).len(),
{
    let reserved = choose|reserved: Seq<bool>| #[trigger]
        reserved_possible(files, reserved) && sorted_stably::<ScriptEntry>(
            bundled_entries(sources) + file_entries(files, reserved),
            entries,
        );
    law_sorting_is_a_stable_rearrangement::<ScriptEntry>(
        bundled_entries(sources) + file_entries(files, reserved),
        entries,
    );
    let holds = |file: ListedFile|
        file.extension matches Some(extension) && extension@ == "js"@;
    lemma_script_files_are_counted(files, reserved, holds);
}

proof fn lemma_script_files_are_counted(
    files: Seq<ListedFile>,
    reserved: Seq<bool>,
    holds: spec_fn(ListedFile) -> bool,
)
    requires
        forall|file: ListedFile| #[trigger] holds(file) == is_script(file),
    ensures
        file_entries(files, reserved).len() == files.filter(holds).len(),
    decreases files.len(),
{
    reveal(Seq::filter);
    if files.len() > 0 {
        lemma_script_files_are_counted(files.drop_last(), reserved, holds);
        assert(holds(files.last()) == is_script(files.last()));
    }
}

/// Of two offered scripts the first has no later lowercase name.
pub proof fn law_offered_scripts_stand_by_name(
    sources: BundledSources,
    files: Seq<ListedFile>,
    entries: Seq<ScriptEntryView>,
    i: int,
    j: int,
)
    requires
        catalog_possible(sources, files, entries),
        0 <= i < j < entries.len(),
    ensures
        text_at_most(lowercase_of(entries[i].name), lowercase_of(entries[j].name)),
{
    let reserved = choose|reserved: Seq<bool>| #[trigger]
        reserved_possible(files, reserved) && sorted_stably::<ScriptEntry>(
            bundled_entries(sources) + file_entries(files, reserved),
            entries,
        );
    law_sorting_is_a_stable_rearrangement::<ScriptEntry>(
        bundled_entries(sources) + file_entries(files, reserved),
        entries,
    );
    assert(ScriptEntry::ranks(entries[i], entries[j]));
}

/// A bundled script has the source that it was bundled with; a script file has what was read.
pub proof fn law_source_of_a_script(
    entry: ScriptEntryView,
    bundled: Seq<char>,
    id: u64,
    file: Result<Seq<char>, Seq<char>>,
)
    ensures
        entry.location == ScriptLocationView::Bundled(bundled) ==> source_of(entry, file) == Ok::<
            Seq<char>,
            Seq<char>,
        >(bundled),
        entry.location == ScriptLocationView::File(id) ==> source_of(entry, file) == file,
{
}

// ---------------------------------------------------------------------------------------------
// Running
// ---------------------------------------------------------------------------------------------

/// Exactly the answer to the command `D` is reported, as it came.
pub proof fn law_only_detaching_is_reported(command: Seq<char>, response: Seq<char>)
    ensures
        command == "D"@ ==> command_event(command, response) == Some(
            WorkerEventView::DebugResponse(Ok(response)),
        ),
        command != "D"@ ==> command_event(command, response) is None,
{
}

/// A script goes on exactly where it was not told to stop, and being told to stop makes it end
/// well; it is announced by its name, and a prelude that fails is reported with its error.
pub proof fn law_script_runs_until_it_is_told_to_stop(
    stop_requested: bool,
    name: Seq<char>,
    error: Seq<char>,
)
    ensures
        going_on(stop_requested) is Ok <==> !stop_requested,
        going_on(stop_requested) matches Err(reason) ==> reason
            == "script execution cancelled by stop"@ && script_end(name, Err(reason)) is Ok,
        opening(name) == WorkerEventView::Log("Running script: "@ + name),
        prelude_failure_text(error) == "install JS helper prelude failed: "@ + error,
{
    let nothing = Seq::<char>::empty();
    crate::scripts::law_stopped_script_ends_well(name, nothing, nothing);
    assert(nothing + cancellation() + nothing =~= cancellation());
}

/// A script fails exactly where its evaluation did for another reason than that it was stopped, and
/// then with its name and the reason; the window hears of its completion exactly where it did not
/// fail.
pub proof fn law_script_fails_for_other_reasons_alone(
    name: Seq<char>,
    error: Seq<char>,
    message: Seq<char>,
)
    ensures
        cancellation() == "script execution cancelled by stop"@,
        script_end(name, Ok(())) == Ok::<(), Seq<char>>(()),
        occurs(error, "script execution cancelled by stop"@) ==> script_end(name, Err(error))
            == Ok::<(), Seq<char>>(()),
        !occurs(error, "script execution cancelled by stop"@) ==> script_end(name, Err(error))
            == Err::<(), Seq<char>>("QuickJS script exception in "@ + name + ": "@ + error),
        closing(Ok(())) == seq![
            WorkerEventView::Log("Script execution completed"@),
            WorkerEventView::ScriptFinished(Ok(())),
        ],
        closing(Err(message)) == seq![WorkerEventView::ScriptFinished(Err(message))],
{
}

/// A batch holds 128 packets of 19 bytes, or all that are left where they are fewer; the next batch
/// starts where it ends.
pub proof fn law_batch_sizes(commands: nat, sent: nat)
    requires
        sent < commands,
    ensures
        ({
            let parts = ranges(commands, sent);
            let size = batch(commands, sent);
            &&& commands - sent >= 128 ==> size == 128
            &&& commands - sent < 128 ==> size == commands - sent
            &&& parts.len() > 0
            &&& parts[0] == (19 * sent as int, 19 * (sent + size) as int)
            &&& parts.skip(1) == ranges(commands, sent + size)
        }),
{
    let parts = ranges(commands, sent);
    assert(parts.skip(1) =~= ranges(commands, sent + batch(commands, sent)));
}

} // verus!
