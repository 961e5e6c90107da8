//! The scripts on offer: the bundled ones and those in the user's scripts directory.
use vstd::prelude::*;

use crate::order::{
    law_sort_keeps_items, lemma_text_total, lemma_text_transitive, no_later, sort, sorted_stably,
    text_at_most, Ranked,
};
use crate::text::{
    after_last, alphanumeric, ascii_lower, ascii_lowercase, is_ascii_alnum, lemma_after_last,
    lemma_views_push, letters, lower, lowercase, lowercase_of,
    option_view, outcome_view, same, views,
};

verus! {

broadcast use lemma_views_push;

// ---------------------------------------------------------------------------------------------
// File names
// ---------------------------------------------------------------------------------------------

/// The last part of a path between slashes that is neither empty nor `.`; empty where there is
/// none.
pub open spec fn final_part(path: Seq<char>) -> Seq<char>
    decreases path.len(),
{
    let part = after_last(path, '/');
    if part.len() > 0 && part != seq!['.'] {
        part
    } else if part.len() >= path.len() {
        Seq::empty()
    } else {
        final_part(path.take(path.len() - part.len() - 1))
    }
}

/// The file name in a path with slashes between its parts; a path that ends in `..` has none.
pub open spec fn file_name_in(path: Seq<char>) -> Option<Seq<char>> {
    let part = final_part(path);
    if part.len() == 0 || part == seq!['.', '.'] {
        None
    } else {
        Some(part)
    }
}

/// A file name without its extension: what stands before the last `.`, or all of it where there is
/// no `.` but at the start.
pub open spec fn without_extension(file_name: Seq<char>) -> Seq<char> {
    let tail = after_last(file_name, '.');
    if tail.len() + 1 < file_name.len() {
        file_name.take(file_name.len() - tail.len() - 1)
    } else {
        file_name
    }
}

/// The stem of a path with slashes between its parts.
pub open spec fn slash_stem(path: Seq<char>) -> Option<Seq<char>> {
    match file_name_in(path) {
        Some(file_name) => Some(without_extension(file_name)),
        None => None,
    }
}

/// `c` can separate the parts of a path on some system.
pub open spec fn is_separator(c: char) -> bool {
    c == '/' || c == '\\'
}

/// `path` with a slash for every backslash.
pub open spec fn slashed(path: Seq<char>) -> Seq<char> {
    Seq::new(
        path.len(),
        |i: int|
            if path[i] == '\\' {
                '/'
            } else {
                path[i]
            },
    )
}

/// `path` with a slash for every backslash and a backslash for every slash.
pub open spec fn swapped(path: Seq<char>) -> Seq<char> {
    Seq::new(
        path.len(),
        |i: int|
            if path[i] == '\\' {
                '/'
            } else if path[i] == '/' {
                '\\'
            } else {
                path[i]
            },
    )
}

/// The stem of a path with backslashes alone between its parts.
pub open spec fn backslash_stem(path: Seq<char>) -> Option<Seq<char>> {
    match slash_stem(swapped(path)) {
        Some(stem) => Some(swapped(stem)),
        None => None,
    }
}

/// `path` can start with a drive, such as `C:`.
pub open spec fn may_name_drive(path: Seq<char>) -> bool {
    path.len() >= 2 && path[1] == ':'
}

/// `path` can start with a server and a share, or with another place that Windows spells with two
/// separators in front.
pub open spec fn may_name_place(path: Seq<char>) -> bool {
    path.len() >= 2 && is_separator(path[0]) && is_separator(path[1])
}

/// A path that is read the same way on every system: it has no backslash, and starts neither like
/// a drive nor with two slashes.
pub open spec fn portable(path: Seq<char>) -> bool {
    &&& !path.contains('\\')
    &&& !may_name_drive(path)
    &&& !may_name_place(path)
}

/// `stem` can be the stem of `path`.
pub open spec fn stem_possible(path: Seq<char>, stem: Option<Seq<char>>) -> bool {
    // Slashes separate the parts.
    ||| stem == slash_stem(path)
    // So do backslashes on Windows.
    ||| stem == slash_stem(slashed(path))
    // A drive is no part of the name.
    ||| may_name_drive(path) && stem == slash_stem(slashed(path.skip(2)))
    // Nor is a place, in which the path may end, and after which backslashes alone may separate.
    ||| may_name_place(path) && (stem is None || stem == backslash_stem(path))
}

/// A portable path has one stem.
proof fn lemma_portable_stem(path: Seq<char>, stem: Option<Seq<char>>)
    requires
        portable(path),
        stem_possible(path, stem),
    ensures
        stem == slash_stem(path),
{
    assert forall|i: int| 0 <= i < path.len() implies #[trigger] slashed(path)[i] == path[i] by {
        assert(path.contains(path[i]));
    }
    assert(slashed(path) =~= path);
}

/// `Path::file_stem` gives the last component of a path without its extension. Components are
/// separated by slashes, on Windows by backslashes too, and a Windows prefix such as a drive is no
/// name. So the result is the reading by slashes or that by both separators, after the drive where
/// the path starts like one. Of a path that starts with two separators it is left open how far a
/// Windows prefix reaches and whether, as in a verbatim path, backslashes alone separate.
#[verifier::external_body]
fn file_stem(path: &str) -> (stem: Option<&str>)
    ensures
        stem_possible(path@, option_view(stem)),
{
    match std::path::Path::new(path).file_stem() {
        Some(stem) => stem.to_str(),
        None => None,
    }
}

// ---------------------------------------------------------------------------------------------
// Keys
// ---------------------------------------------------------------------------------------------

/// The ASCII letters and digits of `stem`, in lowercase.
pub open spec fn key_of(stem: Seq<char>) -> Seq<char>
    decreases stem.len(),
{
    if stem.len() == 0 {
        Seq::empty()
    } else if is_ascii_alnum(stem.last()) {
        key_of(stem.drop_last()).push(ascii_lower(stem.last()))
    } else {
        key_of(stem.drop_last())
    }
}

/// The key of a name with the given stem; without a stem, the name itself is taken.
pub open spec fn key_with(name: Seq<char>, stem: Option<Seq<char>>) -> Seq<char> {
    match stem {
        Some(part) => key_of(part),
        None => key_of(name),
    }
}

/// The key of a portable name.
pub open spec fn portable_key(name: Seq<char>) -> Seq<char> {
    key_with(name, slash_stem(name))
}

/// `key` can be the key of `name`.
pub open spec fn key_possible(name: Seq<char>, key: Seq<char>) -> bool {
    exists|stem: Option<Seq<char>>| #[trigger]
        stem_possible(name, stem) && key == key_with(name, stem)
}

/// The ASCII letters and digits of `stem`, in lowercase.
pub fn stem_key(stem: &str) -> (key: String)
    ensures
        key@ == key_of(stem@),
{
    let all: Vec<char> = letters(stem);
    let mut key = String::new();
    for i in 0..all.len()
        invariant
            all@ == stem@,
            key@ == key_of(stem@.take(i as int)),
    {
        assert(stem@.take(i + 1).drop_last() =~= stem@.take(i as int));
        if alphanumeric(all[i]) {
            key.push(lower(all[i]));
        }
    }
    assert(stem@.take(stem@.len() as int) =~= stem@);
    key
}

/// The key under which a script or a target is known: the letters and digits of its stem, in
/// lowercase.
pub fn script_name_key(name: &str) -> (key: String)
    ensures
        key_possible(name@, key@),
        portable(name@) ==> key@ == portable_key(name@),
{
    let stem: Option<&str> = file_stem(name);
    let ghost found = option_view(stem);
    assert(stem_possible(name@, found));
    proof {
        if portable(name@) {
            lemma_portable_stem(name@, found);
        }
    }
    match stem {
        Some(part) => stem_key(part),
        None => stem_key(name),
    }
}

// ---------------------------------------------------------------------------------------------
// Built-in scripts
// ---------------------------------------------------------------------------------------------

/// The script that is selected at first.
pub const DEFAULT_SCRIPT_NAME: &'static str = "universal.js";

/// The key of a built-in script.
pub open spec fn reserved_key(key: Seq<char>) -> bool {
    key == "geode"@ || key == "macios"@ || key == "universal"@ || key == "utmdolphiniosflycast"@
}

/// `built_in` can be the answer to whether `name` is reserved.
pub open spec fn built_in_possible(name: Seq<char>, built_in: bool) -> bool {
    exists|key: Seq<char>| #[trigger] key_possible(name, key) && built_in == reserved_key(key)
}

/// Whether a key belongs to a built-in script.
pub fn key_is_reserved(key: &str) -> (reserved: bool)
    ensures
        reserved == reserved_key(key@),
{
    same(key, "geode") || same(key, "macios") || same(key, "universal") || same(
        key,
        "utmdolphiniosflycast",
    )
}

/// Whether a name is reserved for a built-in script.
pub fn is_built_in_script_name(name: &str) -> (built_in: bool)
    ensures
        built_in_possible(name@, built_in),
        portable(name@) ==> built_in == reserved_key(portable_key(name@)),
{
    let key = script_name_key(name);
    key_is_reserved(key.as_str())
}

/// The script that suits the target with the given key.
pub open spec fn script_for_key(key: Seq<char>) -> Option<Seq<char>> {
    if key == "macios"@ {
        Some("maciOS.js"@)
    } else if key == "amethyst"@ || key == "melonx"@ || key == "xenios"@ || key == "melocafe"@
        || key == "manic emu"@ {
        Some("universal.js"@)
    } else if key == "geode"@ {
        Some("Geode.js"@)
    } else if key == "utm"@ || key == "dolphinios"@ || key == "flycast"@ {
        Some("UTM-DolphiniOS-Flycast.js"@)
    } else {
        None
    }
}

/// The script for an app whose full name has a key that does not tell the app: a key holds neither
/// accented letters nor spaces.
pub open spec fn script_for_full_name(name: Seq<char>) -> Option<Seq<char>> {
    if name == "MeloCaf\u{e9}"@ || name == "Manic EMU"@ {
        Some("universal.js"@)
    } else if name == "Flycast-iOS 26 fork"@ {
        Some("UTM-DolphiniOS-Flycast.js"@)
    } else {
        None
    }
}

/// The script that suits the target with the given name and key: an app is known by its full name,
/// and else by its key.
pub open spec fn script_for(target: Seq<char>, key: Seq<char>) -> Option<Seq<char>> {
    match script_for_full_name(target) {
        Some(script) => Some(script),
        None => script_for_key(key),
    }
}

/// `script` can be the recommendation for `target`.
pub open spec fn recommendation_possible(target: Seq<char>, script: Option<Seq<char>>) -> bool {
    exists|key: Seq<char>| #[trigger] key_possible(target, key) && script == script_for(target, key)
}

/// The script that suits the target with the given key.
pub fn recommended_for_key(key: &str) -> (script: Option<&'static str>)
    ensures
        option_view(script) == script_for_key(key@),
{
    if same(key, "macios") {
        Some("maciOS.js")
    } else if same(key, "amethyst") || same(key, "melonx") || same(key, "xenios") || same(
        key,
        "melocafe",
    ) || same(key, "manic emu") {
        Some("universal.js")
    } else if same(key, "geode") {
        Some("Geode.js")
    } else if same(key, "utm") || same(key, "dolphinios") || same(key, "flycast") {
        Some("UTM-DolphiniOS-Flycast.js")
    } else {
        None
    }
}

/// The script for an app whose full name has a key that does not tell the app.
pub fn recommended_for_full_name(name: &str) -> (script: Option<&'static str>)
    ensures
        option_view(script) == script_for_full_name(name@),
{
    if same(name, "MeloCaf\u{e9}") || same(name, "Manic EMU") {
        Some("universal.js")
    } else if same(name, "Flycast-iOS 26 fork") {
        Some("UTM-DolphiniOS-Flycast.js")
    } else {
        None
    }
}

/// The script that suits an app or process, by its name.
pub fn recommended_script_for_target(target_name: &str) -> (script: Option<&'static str>)
    ensures
        recommendation_possible(target_name@, option_view(script)),
        portable(target_name@) ==> option_view(script) == script_for(
            target_name@,
            portable_key(target_name@),
        ),
{
    let key = script_name_key(target_name);
    match recommended_for_full_name(target_name) {
        Some(script) => Some(script),
        None => recommended_for_key(key.as_str()),
    }
}

// ---------------------------------------------------------------------------------------------
// Entries
// ---------------------------------------------------------------------------------------------

/// Where the source of a script is.
#[derive(Debug)]
pub enum ScriptLocation {
    /// In the program itself.
    Bundled(String),
    /// In a file of the scripts directory, by the number that stands for its path.
    File(u64),
}

/// What a `ScriptLocation` says.
pub ghost enum ScriptLocationView {
    Bundled(Seq<char>),
    File(u64),
}

impl View for ScriptLocation {
    type V = ScriptLocationView;

    open spec fn view(&self) -> ScriptLocationView {
        match self {
            ScriptLocation::Bundled(source) => ScriptLocationView::Bundled(source@),
            ScriptLocation::File(id) => ScriptLocationView::File(*id),
        }
    }
}

impl Clone for ScriptLocation {
    fn clone(&self) -> (copy: Self)
        ensures
            copy == *self,
    {
        match self {
            ScriptLocation::Bundled(source) => ScriptLocation::Bundled(source.clone()),
            ScriptLocation::File(id) => ScriptLocation::File(*id),
        }
    }
}

/// A script on offer.
#[derive(Debug)]
pub struct ScriptEntry {
    pub name: String,
    pub location: ScriptLocation,
    /// Whether the user may delete the script.
    pub editable: bool,
}

/// What a `ScriptEntry` says.
pub ghost struct ScriptEntryView {
    pub name: Seq<char>,
    pub location: ScriptLocationView,
    pub editable: bool,
}

impl View for ScriptEntry {
    type V = ScriptEntryView;

    open spec fn view(&self) -> ScriptEntryView {
        ScriptEntryView {
            name: self.name@,
            location: self.location@,
            editable: self.editable,
        }
    }
}

impl Clone for ScriptEntry {
    fn clone(&self) -> (copy: Self)
        ensures
            copy == *self,
    {
        ScriptEntry {
            name: self.name.clone(),
            location: self.location.clone(),
            editable: self.editable,
        }
    }
}

impl Ranked for ScriptEntry {
    open spec fn ranks(a: ScriptEntryView, b: ScriptEntryView) -> bool {
        text_at_most(lowercase_of(a.name), lowercase_of(b.name))
    }

    proof fn ranks_total(a: ScriptEntryView, b: ScriptEntryView) {
        lemma_text_total(lowercase_of(a.name), lowercase_of(b.name));
    }

    proof fn ranks_transitive(a: ScriptEntryView, b: ScriptEntryView, c: ScriptEntryView) {
        lemma_text_transitive(lowercase_of(a.name), lowercase_of(b.name), lowercase_of(c.name));
    }

    fn ranks_no_later(&self, other: &Self) -> bool {
        let mine = lowercase(self.name.as_str());
        let theirs = lowercase(other.name.as_str());
        no_later(mine.as_str(), theirs.as_str())
    }
}

/// The sources of the bundled scripts.
pub struct BundledSources {
    pub geode: String,
    pub macios: String,
    pub universal: String,
    pub utm_dolphinios_flycast: String,
}

/// The entry for a bundled script: it cannot be deleted.
pub open spec fn bundled_entry(name: Seq<char>, source: Seq<char>) -> ScriptEntryView {
    ScriptEntryView { name, location: ScriptLocationView::Bundled(source), editable: false }
}

/// The entries for the bundled scripts.
pub open spec fn bundled_entries(sources: BundledSources) -> Seq<ScriptEntryView> {
    seq![
        bundled_entry("Geode.js"@, sources.geode@),
        bundled_entry("maciOS.js"@, sources.macios@),
        bundled_entry("universal.js"@, sources.universal@),
        bundled_entry("UTM-DolphiniOS-Flycast.js"@, sources.utm_dolphinios_flycast@),
    ]
}

/// The entry for a bundled script.
fn bundle(name: &str, source: &String) -> (entry: ScriptEntry)
    ensures
        entry@ == bundled_entry(name@, source@),
{
    ScriptEntry {
        name: name.to_owned(),
        location: ScriptLocation::Bundled(source.clone()),
        editable: false,
    }
}

/// A file of the scripts directory.
pub struct ListedFile {
    /// The number that stands for the path.
    pub id: u64,
    /// The extension, where there is one that is valid text.
    pub extension: Option<String>,
    /// The file name, where it is valid text.
    pub file_name: Option<String>,
}

/// The file is a script.
pub open spec fn is_script(file: ListedFile) -> bool {
    option_view(file.extension) == Some("js"@)
}

/// The name under which a file is offered.
pub open spec fn offered_name(file: ListedFile) -> Seq<char> {
    match file.file_name {
        Some(name) => name@,
        None => "script.js"@,
    }
}

/// The entry for a file: it can be deleted unless its name is reserved.
pub open spec fn file_entry(file: ListedFile, reserved: bool) -> ScriptEntryView {
    ScriptEntryView {
        name: offered_name(file),
        location: ScriptLocationView::File(file.id),
        editable: !reserved,
    }
}

/// The entries for the scripts among `files`, where `reserved` tells which names are reserved.
pub open spec fn file_entries(files: Seq<ListedFile>, reserved: Seq<bool>) -> Seq<ScriptEntryView>
    decreases files.len(),
{
    if files.len() == 0 {
        Seq::empty()
    } else {
        let before = file_entries(files.drop_last(), reserved);
        if is_script(files.last()) {
            before.push(file_entry(files.last(), reserved[files.len() - 1]))
        } else {
            before
        }
    }
}

/// `reserved` answers for every file whether its name is reserved.
pub open spec fn reserved_possible(files: Seq<ListedFile>, reserved: Seq<bool>) -> bool {
    &&& reserved.len() == files.len()
    &&& forall|i: int|
        0 <= i < files.len() ==> built_in_possible(
            offered_name(#[trigger] files[i]),
            reserved[i],
        )
}

/// The scripts on offer are the bundled ones and then the script files, sorted by name without
/// regard to case.
pub open spec fn catalog_possible(
    sources: BundledSources,
    files: Seq<ListedFile>,
    entries: Seq<ScriptEntryView>,
) -> bool {
    exists|reserved: Seq<bool>| #[trigger]
        reserved_possible(files, reserved) && sorted_stably::<ScriptEntry>(
            bundled_entries(sources) + file_entries(files, reserved),
            entries,
        )
}

/// `file_entries` reads no more answers than there are files.
proof fn lemma_file_entries_prefix(files: Seq<ListedFile>, reserved: Seq<bool>, more: Seq<bool>)
    requires
        reserved.len() >= files.len(),
    ensures
        file_entries(files, reserved + more) == file_entries(files, reserved),
    decreases files.len(),
{
    if files.len() > 0 {
        lemma_file_entries_prefix(files.drop_last(), reserved, more);
    }
}

/// The scripts on offer, by name without regard to case; a bundled script stands before a file of
/// the same name.
pub fn read_script_entries(sources: &BundledSources, files: &Vec<ListedFile>) -> (entries: Vec<
    ScriptEntry,
>)
    ensures
        catalog_possible(*sources, files@, views(entries@)),
{
    let ghost bundled = bundled_entries(*sources);
    let mut entries: Vec<ScriptEntry> = Vec::new();
    entries.push(bundle("Geode.js", &sources.geode));
    entries.push(bundle("maciOS.js", &sources.macios));
    entries.push(bundle("universal.js", &sources.universal));
    entries.push(bundle("UTM-DolphiniOS-Flycast.js", &sources.utm_dolphinios_flycast));
    let ghost mut reserved: Seq<bool> = Seq::empty();
    assert(views(entries@) =~= bundled);
    assert(bundled + file_entries(files@.take(0), reserved) =~= bundled);
    for i in 0..files.len()
        invariant
            bundled == bundled_entries(*sources),
            reserved_possible(files@.take(i as int), reserved),
            views(entries@) == bundled + file_entries(files@.take(i as int), reserved),
    {
        let file: &ListedFile = &files[i];
        let ghost listed = file_entries(files@.take(i as int), reserved);
        let name = match &file.file_name {
            Some(name) => name.clone(),
            None => "script.js".to_owned(),
        };
        let built_in: bool = is_built_in_script_name(name.as_str());
        let script: bool = match &file.extension {
            Some(extension) => same(extension.as_str(), "js"),
            None => false,
        };
        proof {
            let shorter = files@.take(i as int);
            let longer = files@.take(i + 1);
            let answers = reserved.push(built_in);
            lemma_file_entries_prefix(shorter, reserved, seq![built_in]);
            assert(answers =~= reserved + seq![built_in]);
            assert(longer.drop_last() =~= shorter);
            assert forall|j: int| 0 <= j < longer.len() implies built_in_possible(
                offered_name(#[trigger] longer[j]),
                answers[j],
            ) by {
                if j < i {
                    assert(longer[j] == shorter[j]);
                }
            }
            assert(bundled + listed.push(file_entry(*file, built_in)) =~= (bundled + listed).push(
                file_entry(*file, built_in),
            ));
            reserved = answers;
        }
        if script {
            entries.push(
                ScriptEntry {
                    name,
                    location: ScriptLocation::File(file.id),
                    editable: !built_in,
                },
            );
        }
    }
    assert(files@.take(files@.len() as int) =~= files@);
    sort(entries)
}

/// The source of a script, given what reading its file gave: a bundled script needs no file.
pub open spec fn source_of(
    entry: ScriptEntryView,
    file: Result<Seq<char>, Seq<char>>,
) -> Result<Seq<char>, Seq<char>> {
    match entry.location {
        ScriptLocationView::Bundled(source) => Ok(source),
        ScriptLocationView::File(_) => file,
    }
}

/// The source of a script, given what reading its file gave; for a bundled script, that is not
/// looked at.
pub fn read_script_source(entry: &ScriptEntry, file: Result<String, String>) -> (source: Result<
    String,
    String,
>)
    ensures
        outcome_view(source) == source_of(entry@, outcome_view(file)),
{
    match &entry.location {
        ScriptLocation::Bundled(source) => Ok(source.clone()),
        ScriptLocation::File(_) => file,
    }
}

// ---------------------------------------------------------------------------------------------
// What the catalog keeps
// ---------------------------------------------------------------------------------------------

/// A key holds lowercase letters and digits alone, and is its own key.
pub proof fn law_key_is_normal(stem: Seq<char>)
    ensures
        forall|i: int|
            0 <= i < key_of(stem).len() ==> is_ascii_alnum(#[trigger] key_of(stem)[i])
                && ascii_lower(key_of(stem)[i]) == key_of(stem)[i],
        key_of(key_of(stem)) == key_of(stem),
    decreases stem.len(),
{
    if stem.len() > 0 {
        law_key_is_normal(stem.drop_last());
        let key = key_of(stem);
        if is_ascii_alnum(stem.last()) {
            assert(key.drop_last() =~= key_of(stem.drop_last()));
            assert(is_ascii_alnum(key.last()));
        }
    }
}

/// Two stems that differ in the case of `A` to `Z` alone have the same key.
pub proof fn law_key_ignores_case(stem: Seq<char>)
    ensures
        key_of(ascii_lowercase(stem)) == key_of(stem),
    decreases stem.len(),
{
    if stem.len() > 0 {
        law_key_ignores_case(stem.drop_last());
        assert(ascii_lowercase(stem).drop_last() =~= ascii_lowercase(stem.drop_last()));
    }
}

/// Of a portable name it is fixed whether it is reserved and which script it recommends.
pub proof fn law_portable_names_are_determined(
    name: Seq<char>,
    built_in: bool,
    script: Option<Seq<char>>,
)
    requires
        portable(name),
        built_in_possible(name, built_in),
        recommendation_possible(name, script),
    ensures
        built_in == reserved_key(portable_key(name)),
        script == script_for(name, portable_key(name)),
{
    assert forall|key: Seq<char>| #[trigger] key_possible(name, key) implies key == portable_key(
        name,
    ) by {
        let stem = choose|stem: Option<Seq<char>>| #[trigger]
            stem_possible(name, stem) && key == key_with(name, stem);
        lemma_portable_stem(name, stem);
    }
}

/// A recommended script is one of the bundled scripts.
pub proof fn law_recommended_script_is_bundled(
    target: Seq<char>,
    script: Seq<char>,
    sources: BundledSources,
)
    requires
        recommendation_possible(target, Some(script)),
    ensures
        exists|i: int|
            0 <= i < bundled_entries(sources).len() && (#[trigger] bundled_entries(
                sources,
            )[i]).name == script,
{
    let entries = bundled_entries(sources);
    assert(entries[0].name == "Geode.js"@);
    assert(entries[1].name == "maciOS.js"@);
    assert(entries[2].name == "universal.js"@);
    assert(entries[3].name == "UTM-DolphiniOS-Flycast.js"@);
}

/// Every entry for a file comes from a script file, and is editable unless its name is reserved.
proof fn lemma_file_entries(files: Seq<ListedFile>, reserved: Seq<bool>)
    ensures
        forall|entry: ScriptEntryView| #[trigger]
            file_entries(files, reserved).contains(entry) <==> exists|i: int|
                0 <= i < files.len() && is_script(#[trigger] files[i]) && entry == file_entry(
                    files[i],
                    reserved[i],
                ),
    decreases files.len(),
{
    if files.len() > 0 {
        let shorter = files.drop_last();
        let before = file_entries(shorter, reserved);
        let all = file_entries(files, reserved);
        lemma_file_entries(shorter, reserved);
        assert forall|entry: ScriptEntryView| #[trigger] all.contains(entry) <==> exists|i: int|
            0 <= i < files.len() && is_script(#[trigger] files[i]) && entry == file_entry(
                files[i],
                reserved[i],
            ) by {
            if all.contains(entry) {
                let at = choose|at: int| 0 <= at < all.len() && all[at] == entry;
                if at < before.len() {
                    assert(before[at] == entry);
                    assert(before.contains(entry));
                    let i = choose|i: int|
                        0 <= i < shorter.len() && is_script(#[trigger] shorter[i]) && entry
                            == file_entry(shorter[i], reserved[i]);
                    assert(files[i] == shorter[i]);
                } else {
                    assert(files[files.len() - 1] == files.last());
                }
            }
            if exists|i: int|
                0 <= i < files.len() && is_script(#[trigger] files[i]) && entry == file_entry(
                    files[i],
                    reserved[i],
                ) {
                let i = choose|i: int|
                    0 <= i < files.len() && is_script(#[trigger] files[i]) && entry == file_entry(
                        files[i],
                        reserved[i],
                    );
                if i < shorter.len() {
                    assert(files[i] == shorter[i]);
                    assert(before.contains(entry));
                    let at = choose|at: int| 0 <= at < before.len() && before[at] == entry;
                    assert(all[at] == entry);
                } else {
                    assert(all[all.len() - 1] == entry);
                }
            }
        }
    }
}

/// All bundled scripts are on offer and none of them can be deleted; a script that can be deleted
/// is a file whose name was found not to be reserved.
pub proof fn law_built_in_scripts_are_kept(
    sources: BundledSources,
    files: Seq<ListedFile>,
    entries: Seq<ScriptEntryView>,
)
    requires
        catalog_possible(sources, files, entries),
    ensures
        forall|i: int|
            0 <= i < bundled_entries(sources).len() ==> entries.contains(
                #[trigger] bundled_entries(sources)[i],
            ),
        forall|i: int|
            0 <= i < entries.len() && (#[trigger] entries[i]).editable ==> entries[i].location
                is File && built_in_possible(entries[i].name, false),
{
    let reserved = choose|reserved: Seq<bool>| #[trigger]
        reserved_possible(files, reserved) && sorted_stably::<ScriptEntry>(
            bundled_entries(sources) + file_entries(files, reserved),
            entries,
        );
    let bundled = bundled_entries(sources);
    let listed = file_entries(files, reserved);
    let all = bundled + listed;
    law_sort_keeps_items::<ScriptEntry>(all, entries);
    lemma_file_entries(files, reserved);
    assert forall|i: int| 0 <= i < bundled.len() implies entries.contains(
        #[trigger] bundled[i],
    ) by {
        assert(all[i] == bundled[i]);
        assert(all.contains(bundled[i]));
    }
    assert forall|i: int| 0 <= i < entries.len() && (#[trigger] entries[i]).editable implies (
    entries[i].location is File && built_in_possible(entries[i].name, false)) by {
        let entry = entries[i];
        assert(entries.contains(entry));
        assert(all.contains(entry));
        let k = choose|k: int| 0 <= k < all.len() && all[k] == entry;
        if k < bundled.len() {
            assert(entry == bundled[k]);
        } else {
            assert(listed[k - bundled.len()] == entry);
            assert(listed.contains(entry));
            let j = choose|j: int|
                0 <= j < files.len() && is_script(#[trigger] files[j]) && entry == file_entry(
                    files[j],
                    reserved[j],
                );
            assert(built_in_possible(offered_name(files[j]), reserved[j]));
        }
    }
}

/// A name that is a stem without slashes, backslashes, colons and dots, followed by `.js`, is
/// portable and has the key of that stem.
proof fn lemma_plain_key(name: Seq<char>, stem: Seq<char>)
    requires
        name == stem + ".js"@,
        stem.len() > 0,
        !stem.contains('/') && !stem.contains('\\') && !stem.contains(':'),
    ensures
        portable(name),
        portable_key(name) == key_of(stem),
{
    reveal_strlit(".js");
    let slash = after_last(name, '/');
    lemma_after_last(name, '/');
    assert forall|i: int| 0 <= i < name.len() implies #[trigger] name[i] != '/' && name[i]
        != '\\' && name[i] != ':' by {
        if i < stem.len() {
            assert(stem.contains(stem[i]));
        }
    }
    if slash.len() < name.len() {
        assert(name[name.len() - slash.len() - 1] == '/');
    }
    assert(name.skip(0) =~= name);
    assert(slash == name);
    assert(final_part(name) == name) by {
        assert(name.len() > 1);
    }
    assert(name != seq!['.', '.']) by {
        assert(name.len() > 2);
    }
    let dot = after_last(name, '.');
    lemma_after_last(name, '.');
    assert(dot.len() == 2) by {
        reveal_with_fuel(after_last, 4);
        assert(name.last() == 's');
        assert(name.drop_last().last() == 'j');
        assert(name.drop_last().drop_last().last() == '.');
    }
    assert(name.take(name.len() - 3) =~= stem);
}

/// The key of a text in two pieces is the keys of the pieces in a row.
proof fn lemma_key_in_pieces(first: Seq<char>, second: Seq<char>)
    ensures
        key_of(first + second) == key_of(first) + key_of(second),
    decreases second.len(),
{
    let whole = first + second;
    if second.len() == 0 {
        assert(whole =~= first);
        assert(key_of(first) + key_of(second) =~= key_of(first));
    } else {
        lemma_key_in_pieces(first, second.drop_last());
        assert(whole.drop_last() =~= first + second.drop_last());
        assert(key_of(whole) =~= key_of(first) + key_of(second));
    }
}

/// The key of a word of letters and digits is the word in lowercase.
proof fn lemma_key_of_word(word: Seq<char>)
    requires
        forall|i: int| 0 <= i < word.len() ==> is_ascii_alnum(#[trigger] word[i]),
    ensures
        key_of(word) == ascii_lowercase(word),
    decreases word.len(),
{
    if word.len() > 0 {
        lemma_key_of_word(word.drop_last());
        assert(is_ascii_alnum(word[word.len() - 1]));
    }
    assert(key_of(word) =~= ascii_lowercase(word));
}

/// The key of the last bundled script's stem.
proof fn lemma_longest_key()
    ensures
        key_of("UTM-DolphiniOS-Flycast"@) == "utmdolphiniosflycast"@,
{
    reveal_strlit("UTM-DolphiniOS-Flycast");
    reveal_strlit("utmdolphiniosflycast");
    let whole = "UTM-DolphiniOS-Flycast"@;
    let a = whole.subrange(0, 3);
    let b = whole.subrange(4, 14);
    let c = whole.subrange(15, 22);
    let hyphen = seq!['-'];
    assert(whole =~= a + hyphen + b + hyphen + c);
    lemma_key_in_pieces(a, hyphen);
    lemma_key_in_pieces(a + hyphen, b);
    lemma_key_in_pieces(a + hyphen + b, hyphen);
    lemma_key_in_pieces(a + hyphen + b + hyphen, c);
    lemma_key_of_word(a);
    lemma_key_of_word(b);
    lemma_key_of_word(c);
    assert(key_of(hyphen) == Seq::<char>::empty()) by {
        reveal_with_fuel(key_of, 2);
        assert(hyphen.last() == '-');
    }
    assert(key_of(whole) =~= "utmdolphiniosflycast"@);
}

/// The names of the bundled scripts are reserved.
pub proof fn law_bundled_names_are_reserved()
    ensures
        portable("Geode.js"@) && portable_key("Geode.js"@) == "geode"@,
        portable("maciOS.js"@) && portable_key("maciOS.js"@) == "macios"@,
        portable("universal.js"@) && portable_key("universal.js"@) == "universal"@,
        portable("UTM-DolphiniOS-Flycast.js"@) && portable_key("UTM-DolphiniOS-Flycast.js"@)
            == "utmdolphiniosflycast"@,
{
    reveal_strlit(".js");
    assert(portable("Geode.js"@) && portable_key("Geode.js"@) == "geode"@) by {
        reveal_strlit("Geode.js");
        reveal_strlit("Geode");
        reveal_strlit("geode");
        assert("Geode.js"@ =~= "Geode"@ + ".js"@);
        lemma_plain_key("Geode.js"@, "Geode"@);
        lemma_key_of_word("Geode"@);
        assert(key_of("Geode"@) =~= "geode"@);
    }
    assert(portable("maciOS.js"@) && portable_key("maciOS.js"@) == "macios"@) by {
        reveal_strlit("maciOS.js");
        reveal_strlit("maciOS");
        reveal_strlit("macios");
        assert("maciOS.js"@ =~= "maciOS"@ + ".js"@);
        lemma_plain_key("maciOS.js"@, "maciOS"@);
        lemma_key_of_word("maciOS"@);
        assert(key_of("maciOS"@) =~= "macios"@);
    }
    assert(portable("universal.js"@) && portable_key("universal.js"@) == "universal"@) by {
        reveal_strlit("universal.js");
        reveal_strlit("universal");
        assert("universal.js"@ =~= "universal"@ + ".js"@);
        lemma_plain_key("universal.js"@, "universal"@);
        lemma_key_of_word("universal"@);
        assert(key_of("universal"@) =~= "universal"@);
    }
    assert(portable("UTM-DolphiniOS-Flycast.js"@) && portable_key("UTM-DolphiniOS-Flycast.js"@)
        == "utmdolphiniosflycast"@) by {
        reveal_strlit("UTM-DolphiniOS-Flycast.js");
        reveal_strlit("UTM-DolphiniOS-Flycast");
        assert("UTM-DolphiniOS-Flycast.js"@ =~= "UTM-DolphiniOS-Flycast"@ + ".js"@);
        lemma_plain_key("UTM-DolphiniOS-Flycast.js"@, "UTM-DolphiniOS-Flycast"@);
        lemma_longest_key();
    }
}

// ---------------------------------------------------------------------------------------------
// Supported apps
// ---------------------------------------------------------------------------------------------

/// The apps that are supported by name, each with its script.
pub open spec fn supported_apps() -> Seq<(Seq<char>, Seq<char>)> {
    seq![
        ("Amethyst"@, "universal.js"@),
        ("MeloNX"@, "universal.js"@),
        ("MeloCaf\u{e9}"@, "universal.js"@),
        ("Manic EMU"@, "universal.js"@),
        ("Geode"@, "Geode.js"@),
        ("UTM"@, "UTM-DolphiniOS-Flycast.js"@),
        ("DolphiniOS"@, "UTM-DolphiniOS-Flycast.js"@),
        ("Flycast-iOS 26 fork"@, "UTM-DolphiniOS-Flycast.js"@),
    ]
}

/// A name without separators, colons and dots is portable and is its own stem.
proof fn lemma_plain_name(name: Seq<char>)
    requires
        name.len() > 0,
        forall|i: int|
            0 <= i < name.len() ==> !is_separator(#[trigger] name[i]) && name[i] != ':' && name[i]
                != '.',
    ensures
        portable(name),
        portable_key(name) == key_of(name),
{
    lemma_after_last(name, '/');
    lemma_after_last(name, '.');
    let slash = after_last(name, '/');
    let dot = after_last(name, '.');
    if slash.len() < name.len() {
        assert(is_separator(name[name.len() - slash.len() - 1]));
    }
    if dot.len() < name.len() {
        assert(name[name.len() - dot.len() - 1] == '.');
    }
    assert(name.skip(0) =~= name);
    assert(name[0] != '.');
    assert(final_part(name) == name);
}

/// The key of a supported app whose name is one word.
proof fn lemma_word_app(name: Seq<char>)
    requires
        name.len() > 0,
        forall|i: int| 0 <= i < name.len() ==> is_ascii_alnum(#[trigger] name[i]),
    ensures
        portable(name),
        portable_key(name) == ascii_lowercase(name),
{
    lemma_plain_name(name);
    lemma_key_of_word(name);
}

/// The scripts for the keys of the supported apps.
proof fn lemma_scripts_for_keys()
    ensures
        script_for_key("amethyst"@) == Some("universal.js"@),
        script_for_key("melonx"@) == Some("universal.js"@),
        script_for_key("geode"@) == Some("Geode.js"@),
        script_for_key("utm"@) == Some("UTM-DolphiniOS-Flycast.js"@),
        script_for_key("dolphinios"@) == Some("UTM-DolphiniOS-Flycast.js"@),
{
    reveal_strlit("macios");
    reveal_strlit("amethyst");
    reveal_strlit("melonx");
    reveal_strlit("xenios");
    reveal_strlit("melocafe");
    reveal_strlit("manic emu");
    reveal_strlit("geode");
    reveal_strlit("utm");
    reveal_strlit("dolphinios");
    assert("macios"@.len() == 6 && "melonx"@.len() == 6 && "xenios"@.len() == 6);
    assert("amethyst"@.len() == 8 && "melocafe"@.len() == 8 && "manic emu"@.len() == 9);
    assert("geode"@.len() == 5 && "utm"@.len() == 3 && "dolphinios"@.len() == 10);
    assert("macios"@[1] == 'a' && "melonx"@[1] == 'e');
}

/// The full names that tell an app, by their lengths and first letters.
proof fn lemma_full_names()
    ensures
        "MeloCaf\u{e9}"@.len() == 8 && "MeloCaf\u{e9}"@[0] == 'M',
        "Manic EMU"@.len() == 9,
        "Flycast-iOS 26 fork"@.len() == 19,
{
    reveal_strlit("MeloCaf\u{e9}");
    reveal_strlit("Manic EMU");
    reveal_strlit("Flycast-iOS 26 fork");
}

/// A supported app is told by its full name, or else by its key, which is then fixed.
proof fn lemma_supported_script(which: int, key: Seq<char>)
    requires
        0 <= which < supported_apps().len(),
        key_possible(supported_apps()[which].0, key),
    ensures
        script_for(supported_apps()[which].0, key) == Some(supported_apps()[which].1),
{
    let target = supported_apps()[which].0;
    let stem = choose|stem: Option<Seq<char>>| #[trigger]
        stem_possible(target, stem) && key == key_with(target, stem);
    lemma_scripts_for_keys();
    lemma_full_names();
    if which == 0 {
        reveal_strlit("Amethyst");
        reveal_strlit("amethyst");
        lemma_word_app(target);
        assert(target[0] == 'A');
        assert(ascii_lowercase(target) =~= "amethyst"@);
        lemma_portable_stem(target, stem);
    } else if which == 1 {
        reveal_strlit("MeloNX");
        reveal_strlit("melonx");
        lemma_word_app(target);
        assert(ascii_lowercase(target) =~= "melonx"@);
        lemma_portable_stem(target, stem);
    } else if which == 4 {
        reveal_strlit("Geode");
        reveal_strlit("geode");
        lemma_word_app(target);
        assert(ascii_lowercase(target) =~= "geode"@);
        lemma_portable_stem(target, stem);
    } else if which == 5 {
        reveal_strlit("UTM");
        reveal_strlit("utm");
        lemma_word_app(target);
        assert(ascii_lowercase(target) =~= "utm"@);
        lemma_portable_stem(target, stem);
    } else if which == 6 {
        reveal_strlit("DolphiniOS");
        reveal_strlit("dolphinios");
        lemma_word_app(target);
        assert(ascii_lowercase(target) =~= "dolphinios"@);
        lemma_portable_stem(target, stem);
    }
}

/// Every supported app is recommended its script, and that is a bundled one.
pub proof fn law_supported_apps_get_their_script(
    which: int,
    script: Option<Seq<char>>,
    sources: BundledSources,
)
    requires
        0 <= which < supported_apps().len(),
        recommendation_possible(supported_apps()[which].0, script),
    ensures
        script == Some(supported_apps()[which].1),
        exists|i: int|
            0 <= i < bundled_entries(sources).len() && (#[trigger] bundled_entries(
                sources,
            )[i]).name == supported_apps()[which].1,
{
    let target = supported_apps()[which].0;
    let key = choose|key: Seq<char>| #[trigger]
        key_possible(target, key) && script == script_for(target, key);
    lemma_supported_script(which, key);
    law_recommended_script_is_bundled(target, supported_apps()[which].1, sources);
}

} // verus!
