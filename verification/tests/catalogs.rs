use jitserver::catalog::{
    is_built_in_script_name, read_script_entries, read_script_source,
    recommended_script_for_target, script_name_key, BundledSources, ListedFile, ScriptEntry,
    ScriptLocation, DEFAULT_SCRIPT_NAME,
};

fn sources() -> BundledSources {
    BundledSources {
        geode: "geode source".to_string(),
        macios: "macios source".to_string(),
        universal: "universal source".to_string(),
        utm_dolphinios_flycast: "utm source".to_string(),
    }
}

fn file(id: u64, name: &str) -> ListedFile {
    ListedFile {
        id,
        extension: name.rsplit_once('.').map(|(_, end)| end.to_string()),
        file_name: Some(name.to_string()),
    }
}

fn names(entries: &[ScriptEntry]) -> Vec<&str> {
    entries.iter().map(|entry| entry.name.as_str()).collect()
}

#[test]
fn keys_hold_lowercase_letters_and_digits() {
    assert_eq!(script_name_key("Geode.js"), "geode");
    assert_eq!(
        script_name_key("UTM-DolphiniOS-Flycast.js"),
        "utmdolphiniosflycast"
    );
    assert_eq!(script_name_key("Manic EMU"), "manicemu");
    assert_eq!(script_name_key("MeloCaf\u{e9}"), "melocaf");
    assert_eq!(script_name_key("a/b/My Script 2.txt"), "myscript2");
    assert_eq!(script_name_key(".hidden"), "hidden");
    assert_eq!(script_name_key("Game: Title"), "gametitle");
    assert_eq!(script_name_key("ab:c.js"), "abc");
    assert_eq!(script_name_key(".."), "");
    assert_eq!(script_name_key(""), "");
}

#[test]
fn names_of_built_in_scripts_are_reserved() {
    for name in [
        "Geode.js",
        "maciOS.js",
        "universal.js",
        "UTM-DolphiniOS-Flycast.js",
        "GEODE.JS",
        "Uni-versal.txt",
        "universal",
    ] {
        assert!(is_built_in_script_name(name), "{name}");
    }
    for name in ["universal2.js", "mine.js", "", "geode.min.js"] {
        assert!(!is_built_in_script_name(name), "{name}");
    }
}

#[test]
fn scripts_are_recommended_by_name() {
    assert_eq!(recommended_script_for_target("maciOS"), Some("maciOS.js"));
    for target in [
        "Amethyst",
        "MeloNX",
        "XeniOS",
        "MeloCafe",
        "MeloCaf\u{e9}",
        "MeloCafe\u{301}",
        "Manic EMU",
    ] {
        assert_eq!(
            recommended_script_for_target(target),
            Some("universal.js"),
            "{target}"
        );
    }
    assert_eq!(recommended_script_for_target("Geode"), Some("Geode.js"));
    for target in ["UTM", "DolphiniOS", "Flycast", "Flycast-iOS 26 fork"] {
        assert_eq!(
            recommended_script_for_target(target),
            Some("UTM-DolphiniOS-Flycast.js"),
            "{target}"
        );
    }
    for target in [
        "Safari",
        "MeloCaf",
        "ManicEMU",
        "manicemu",
        "flycastios26fork",
        "",
    ] {
        assert_eq!(recommended_script_for_target(target), None, "{target}");
    }
}

#[test]
fn bundled_scripts_are_always_on_offer() {
    let entries = read_script_entries(&sources(), &vec![]);
    assert_eq!(
        names(&entries),
        [
            "Geode.js",
            "maciOS.js",
            "universal.js",
            "UTM-DolphiniOS-Flycast.js"
        ]
    );
    assert!(entries.iter().all(|entry| !entry.editable));
    assert!(entries
        .iter()
        .all(|entry| matches!(entry.location, ScriptLocation::Bundled(_))));
    assert!(names(&entries).contains(&DEFAULT_SCRIPT_NAME));
}

#[test]
fn script_files_are_sorted_in_by_name() {
    let files = vec![
        file(1, "zebra.js"),
        file(2, "Notes.txt"),
        file(3, "Hat.js"),
        file(4, "\u{c4}rger.js"),
        file(5, "noextension"),
        file(6, "UPPER.JS"),
    ];
    let entries = read_script_entries(&sources(), &files);
    assert_eq!(
        names(&entries),
        [
            "Geode.js",
            "Hat.js",
            "maciOS.js",
            "universal.js",
            "UTM-DolphiniOS-Flycast.js",
            "zebra.js",
            "\u{c4}rger.js"
        ]
    );
    assert!(entries[1].editable);
    assert!(matches!(entries[1].location, ScriptLocation::File(3)));
}

#[test]
fn a_file_with_a_reserved_name_stands_behind_and_is_kept() {
    let entries = read_script_entries(&sources(), &vec![file(9, "Universal.js")]);
    assert_eq!(
        names(&entries),
        [
            "Geode.js",
            "maciOS.js",
            "universal.js",
            "Universal.js",
            "UTM-DolphiniOS-Flycast.js"
        ]
    );
    assert!(!entries[3].editable);
}

#[test]
fn a_file_without_a_readable_name_is_called_script() {
    let files = vec![ListedFile {
        id: 5,
        extension: Some("js".to_string()),
        file_name: None,
    }];
    let entries = read_script_entries(&sources(), &files);
    assert!(names(&entries).contains(&"script.js"));
}

#[test]
fn bundled_sources_need_no_file() {
    let entries = read_script_entries(&sources(), &vec![file(1, "mine.js")]);
    assert_eq!(
        read_script_source(&entries[0], Err("no file".to_string())),
        Ok("geode source".to_string())
    );
    assert_eq!(names(&entries)[2], "mine.js");
    assert_eq!(
        read_script_source(&entries[2], Err("no file".to_string())),
        Err("no file".to_string())
    );
    assert_eq!(
        read_script_source(&entries[2], Ok("mine".to_string())),
        Ok("mine".to_string())
    );
}
