use jitserver::host::{
    app_support_dir, custom_scripts_dir, format_device_refresh_error, BaseFolder, Folder,
    HostFolders, HostSystem,
};

fn folders(home: bool, appdata: bool, xdg_data_home: bool) -> HostFolders {
    HostFolders {
        home,
        appdata,
        xdg_data_home,
    }
}

fn base(folder: &Folder) -> &'static str {
    match folder.base {
        BaseFolder::Home => "home",
        BaseFolder::AppData => "appdata",
        BaseFolder::XdgDataHome => "xdg",
        BaseFolder::Current => "current",
    }
}

#[test]
fn macos_keeps_its_data_in_the_library() {
    let folder = app_support_dir(&HostSystem::MacOs, &folders(true, true, true));
    assert_eq!(base(&folder), "home");
    assert_eq!(folder.parts, ["Library", "Application Support", "JITserver"]);
    let folder = app_support_dir(&HostSystem::MacOs, &folders(false, true, true));
    assert_eq!(base(&folder), "xdg");
}

#[test]
fn windows_keeps_its_data_in_appdata() {
    let folder = app_support_dir(&HostSystem::Windows, &folders(true, true, true));
    assert_eq!(base(&folder), "appdata");
    assert_eq!(folder.parts, ["JITserver"]);
    let folder = app_support_dir(&HostSystem::Windows, &folders(true, false, false));
    assert_eq!(base(&folder), "home");
}

#[test]
fn linux_follows_the_xdg_convention() {
    let folder = app_support_dir(&HostSystem::Linux, &folders(true, true, true));
    assert_eq!(base(&folder), "xdg");
    assert_eq!(folder.parts, ["JITserver"]);
    let folder = app_support_dir(&HostSystem::Linux, &folders(true, true, false));
    assert_eq!(base(&folder), "home");
    assert_eq!(folder.parts, [".local", "share", "JITserver"]);
    let folder = app_support_dir(&HostSystem::Other, &folders(false, true, false));
    assert_eq!(base(&folder), "current");
    assert_eq!(folder.parts, [".jitserver"]);
}

#[test]
fn scripts_have_a_folder_of_their_own() {
    let folder = custom_scripts_dir(&HostSystem::Linux, &folders(true, false, false));
    assert_eq!(base(&folder), "home");
    assert_eq!(folder.parts, [".local", "share", "JITserver", "scripts"]);
}

#[test]
fn refused_connections_come_with_advice() {
    let error = "device socket io failed: refused (os error 10061)";
    assert_eq!(
        format_device_refresh_error(error, &HostSystem::Windows),
        format!("{error} Make sure you have Apple Devices/iTunes installed.")
    );
    assert_eq!(
        format_device_refresh_error(error, &HostSystem::Linux),
        format!("{error} Make sure you have usbmuxd installed.")
    );
    assert_eq!(
        format_device_refresh_error(error, &HostSystem::MacOs),
        error
    );
    for other in ["device socket io failed", "os error 10061", ""] {
        assert_eq!(
            format_device_refresh_error(other, &HostSystem::Windows),
            other
        );
    }
}
