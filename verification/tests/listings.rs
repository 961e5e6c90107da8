use jitserver::device::{
    check_status, developer_mode_check, inspect_device_status, CheckStatus, DeviceChecks, DeviceStatus,
};
use jitserver::disk_image::{chip_id_answered, image_mounted, images_counted, ImageAction};
use jitserver::display::{device_status_lines, format_check_status};
use jitserver::listing::{
    connection_label, find_device, list_apps, list_processes, process_name, refresh_devices,
    Connection, DeviceReport, LockdownAnswers, ProcessToken,
};
use jitserver::property_list::{has_get_task_allow, unique_chip_id};
use plist::{Dictionary, Value};

fn text(value: &str) -> Value {
    Value::String(value.to_string())
}

fn dictionary(entries: Vec<(&str, Value)>) -> Value {
    let mut dictionary = Dictionary::new();
    for (key, value) in entries {
        dictionary.insert(key.to_string(), value);
    }
    Value::Dictionary(dictionary)
}

fn app(names: Vec<(&str, Value)>, allowed: bool) -> Value {
    let mut entries = names;
    entries.push((
        "Entitlements",
        dictionary(vec![("get-task-allow", Value::Boolean(allowed))]),
    ));
    dictionary(entries)
}

#[test]
fn only_an_entitlement_that_is_true_allows() {
    assert!(has_get_task_allow(&app(vec![], true)));
    assert!(!has_get_task_allow(&app(vec![], false)));
    assert!(!has_get_task_allow(&text("no dictionary")));
    assert!(!has_get_task_allow(&dictionary(vec![])));
    assert!(!has_get_task_allow(&dictionary(vec![(
        "Entitlements",
        text("get-task-allow")
    )])));
    assert!(!has_get_task_allow(&dictionary(vec![(
        "Entitlements",
        dictionary(vec![("get-task-allow", text("true"))])
    )])));
}

#[test]
fn debuggable_apps_are_listed_by_name() {
    let apps = vec![
        (
            "com.b".to_string(),
            app(
                vec![
                    ("CFBundleDisplayName", text("zeta")),
                    ("CFBundleName", text("Alpha")),
                ],
                true,
            ),
        ),
        (
            "com.a".to_string(),
            app(vec![("CFBundleName", text("Zeta"))], true),
        ),
        (
            "com.hidden".to_string(),
            app(vec![("CFBundleName", text("Hidden"))], false),
        ),
        ("com.unnamed".to_string(), app(vec![], true)),
        (
            "com.c".to_string(),
            app(vec![("CFBundleName", text("\u{c4}pfel"))], true),
        ),
        (
            "com.number".to_string(),
            app(
                vec![
                    ("CFBundleDisplayName", Value::Boolean(true)),
                    ("CFBundleName", text("Ignored")),
                ],
                true,
            ),
        ),
    ];
    let listed: Vec<(String, String)> = list_apps(&apps)
        .into_iter()
        .map(|app| (app.name, app.bundle_id))
        .collect();
    let expected = [
        ("com.number", "com.number"),
        ("com.unnamed", "com.unnamed"),
        ("Zeta", "com.a"),
        ("zeta", "com.b"),
        ("\u{c4}pfel", "com.c"),
    ];
    let expected: Vec<(String, String)> = expected
        .iter()
        .map(|(name, bundle_id)| (name.to_string(), bundle_id.to_string()))
        .collect();
    assert_eq!(listed, expected);
    let mut reversed = apps;
    reversed.reverse();
    let again: Vec<(String, String)> = list_apps(&reversed)
        .into_iter()
        .map(|app| (app.name, app.bundle_id))
        .collect();
    assert_eq!(again, expected);
}

fn token(pid: u32, url: Option<&str>) -> ProcessToken {
    ProcessToken {
        pid,
        executable_url: url.map(|url| url.to_string()),
    }
}

#[test]
fn processes_are_named_by_their_executable() {
    assert_eq!(
        process_name(&token(1, Some("file:///usr/libexec/backboardd"))),
        "backboardd"
    );
    assert_eq!(process_name(&token(1, Some("launchd"))), "launchd");
    assert_eq!(process_name(&token(1, Some("a/"))), "Unknown Process");
    assert_eq!(process_name(&token(1, Some(""))), "Unknown Process");
    assert_eq!(process_name(&token(1, None)), "Unknown Process");
}

#[test]
fn processes_are_listed_by_name_and_number() {
    let tokens = vec![
        token(30, Some("/x/Beta")),
        token(20, Some("/x/alpha")),
        token(7, Some("/x/beta")),
        token(9, None),
    ];
    let listed: Vec<(u32, String)> = list_processes(&tokens)
        .into_iter()
        .map(|process| (process.pid, process.name))
        .collect();
    assert_eq!(
        listed,
        vec![
            (20, "alpha".to_string()),
            (7, "beta".to_string()),
            (30, "Beta".to_string()),
            (9, "Unknown Process".to_string()),
        ]
    );
}

#[test]
fn devices_are_named_as_they_answer() {
    let reports = vec![
        DeviceReport {
            udid: "one".to_string(),
            answers: Some(LockdownAnswers {
                device_name: Some(text("Phone")),
                product_version: Some(text("26.1")),
            }),
            connection: Connection::Usb,
        },
        DeviceReport {
            udid: "two".to_string(),
            answers: Some(LockdownAnswers {
                device_name: Some(Value::Boolean(true)),
                product_version: None,
            }),
            connection: Connection::Network,
        },
        DeviceReport {
            udid: "three".to_string(),
            answers: None,
            connection: Connection::Unknown,
        },
    ];
    let infos = refresh_devices(&reports);
    let shown: Vec<[&str; 4]> = infos
        .iter()
        .map(|info| {
            [
                info.udid.as_str(),
                info.name.as_str(),
                info.product_version.as_str(),
                info.connection.as_str(),
            ]
        })
        .collect();
    assert_eq!(
        shown,
        [
            ["one", "Phone", "26.1", "USB"],
            ["two", "Apple Device", "", "Network"],
            ["three", "Apple Device", "", "Other"],
        ]
    );
    assert_eq!(connection_label(&Connection::Usb), "USB");
}

#[test]
fn devices_are_found_by_identifier() {
    let udids = vec!["a".to_string(), "b".to_string(), "b".to_string()];
    assert_eq!(find_device(&udids, "b"), Ok(1));
    assert_eq!(
        find_device(&udids, "c"),
        Err("device c is no longer connected".to_string())
    );
}

#[test]
fn checks_have_words() {
    assert!(matches!(check_status(Ok(true)), CheckStatus::Success));
    let failed: CheckStatus = check_status(Err::<bool, String>("broken".to_string()));
    assert_eq!(format_check_status(&failed), "Failed: broken");
    assert_eq!(format_check_status(&CheckStatus::Success), "Success");
    assert_eq!(
        format_check_status(&CheckStatus::default()),
        "Failed: Not checked yet"
    );
}

#[test]
fn an_unreachable_device_fails_every_check() {
    let status = inspect_device_status(Err("gone".to_string()));
    assert_eq!(
        device_status_lines(&Ok(status)),
        [
            "Wireless Debugging: Failed: gone",
            "Developer Mode: Failed: gone",
            "Developer Disk Image: Failed: gone"
        ]
    );
    let status = inspect_device_status(Ok(DeviceChecks {
        wireless_debugging: Ok(true),
        developer_mode: Err("off".to_string()),
        developer_disk_image: Ok(true),
    }));
    assert_eq!(
        device_status_lines(&Ok(status)),
        [
            "Wireless Debugging: Success",
            "Developer Mode: Failed: off",
            "Developer Disk Image: Success"
        ]
    );
    assert_eq!(
        device_status_lines(&Err("lost".to_string())),
        [
            "Wireless Debugging: Failed: lost",
            "Developer Mode: Failed: lost",
            "Developer Disk Image: Failed: lost"
        ]
    );
    assert_eq!(
        device_status_lines(&Ok(DeviceStatus::default()))[0],
        "Wireless Debugging: Failed: Not checked yet"
    );
}

#[test]
fn developer_mode_passes_only_where_it_is_on() {
    let developer_mode = |answer| {
        let status = inspect_device_status(Ok(DeviceChecks {
            wireless_debugging: Ok(true),
            developer_mode: answer,
            developer_disk_image: Ok(true),
        }));
        device_status_lines(&Ok(status))
    };
    assert_eq!(developer_mode(Ok(true))[1], "Developer Mode: Success");
    assert_eq!(
        developer_mode(Ok(false)),
        [
            "Wireless Debugging: Success",
            "Developer Mode: Failed: Developer Mode is off",
            "Developer Disk Image: Success"
        ]
    );
    assert_eq!(
        developer_mode(Err("lost".to_string()))[1],
        "Developer Mode: Failed: lost"
    );
    assert!(matches!(
        developer_mode_check(Ok(false)),
        CheckStatus::Failed(error) if error == "Developer Mode is off"
    ));
}

#[test]
fn chip_identifiers_are_unsigned_numbers() {
    assert_eq!(unique_chip_id(&Value::Integer(77u64.into())), Ok(77));
    let missing = Err("missing UniqueChipID in lockdown response".to_string());
    assert_eq!(unique_chip_id(&Value::Integer((-1i64).into())), missing);
    assert_eq!(unique_chip_id(&text("77")), missing);
}

#[test]
fn the_image_is_mounted_only_where_none_is() {
    assert!(matches!(
        images_counted(Ok(1)),
        ImageAction::Done(Ok(true))
    ));
    assert!(matches!(images_counted(Ok(0)), ImageAction::AskChipId));
    assert!(matches!(
        images_counted(Err("x".to_string())),
        ImageAction::Done(Err(error)) if error == "x"
    ));
    assert!(matches!(
        chip_id_answered(Ok(Value::Integer(5u64.into()))),
        ImageAction::Mount { chip_id: 5 }
    ));
    assert!(matches!(
        chip_id_answered(Ok(text("5"))),
        ImageAction::Done(Err(error)) if error == "missing UniqueChipID in lockdown response"
    ));
    assert!(matches!(
        chip_id_answered(Err("y".to_string())),
        ImageAction::Done(Err(error)) if error == "y"
    ));
    assert!(matches!(
        image_mounted(Ok(())),
        ImageAction::Done(Ok(true))
    ));
    assert!(matches!(
        image_mounted(Err("z".to_string())),
        ImageAction::Done(Err(error)) if error == "z"
    ));
}
