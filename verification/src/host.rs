//! What depends on the system that the program runs on.
use vstd::prelude::*;

use crate::text::{
    concat2, contains, lemma_views_empty, lemma_views_push, occurs, views,
};

verus! {

broadcast use {lemma_views_empty, lemma_views_push};

/// The system that the program runs on.
pub enum HostSystem {
    MacOs,
    Windows,
    Linux,
    Other,
}

/// Which of the variables that name a folder are set.
pub struct HostFolders {
    pub home: bool,
    pub appdata: bool,
    pub xdg_data_home: bool,
}

/// The folder that a path starts from.
pub enum BaseFolder {
    Home,
    AppData,
    XdgDataHome,
    /// The working directory.
    Current,
}

/// A folder below a base folder.
pub struct Folder {
    pub base: BaseFolder,
    pub parts: Vec<String>,
}

/// What a `Folder` says.
pub ghost struct FolderView {
    pub base: BaseFolder,
    pub parts: Seq<Seq<char>>,
}

impl View for Folder {
    type V = FolderView;

    open spec fn view(&self) -> FolderView {
        FolderView { base: self.base, parts: views(self.parts@) }
    }
}

/// The folder for the program's data: the system's own place where it has one, then the place that
/// the XDG convention names, then its default, and at last the working directory.
pub open spec fn support_folder(system: HostSystem, folders: HostFolders) -> FolderView {
    if system is MacOs && folders.home {
        FolderView {
            base: BaseFolder::Home,
            parts: seq!["Library"@, "Application Support"@, "JITserver"@],
        }
    } else if system is Windows && folders.appdata {
        FolderView { base: BaseFolder::AppData, parts: seq!["JITserver"@] }
    } else if folders.xdg_data_home {
        FolderView { base: BaseFolder::XdgDataHome, parts: seq!["JITserver"@] }
    } else if folders.home {
        FolderView { base: BaseFolder::Home, parts: seq![".local"@, "share"@, "JITserver"@] }
    } else {
        FolderView { base: BaseFolder::Current, parts: seq![".jitserver"@] }
    }
}

/// The folder for the program's data.
pub fn app_support_dir(system: &HostSystem, folders: &HostFolders) -> (folder: Folder)
    ensures
        folder@ == support_folder(*system, *folders),
{
    let mac: bool = matches!(system, HostSystem::MacOs);
    let windows: bool = matches!(system, HostSystem::Windows);
    let mut parts: Vec<String> = Vec::new();
    let base = if mac && folders.home {
        parts.push("Library".to_owned());
        parts.push("Application Support".to_owned());
        parts.push("JITserver".to_owned());
        BaseFolder::Home
    } else if windows && folders.appdata {
        parts.push("JITserver".to_owned());
        BaseFolder::AppData
    } else if folders.xdg_data_home {
        parts.push("JITserver".to_owned());
        BaseFolder::XdgDataHome
    } else if folders.home {
        parts.push(".local".to_owned());
        parts.push("share".to_owned());
        parts.push("JITserver".to_owned());
        BaseFolder::Home
    } else {
        parts.push(".jitserver".to_owned());
        BaseFolder::Current
    };
    assert(views(parts@) =~= support_folder(*system, *folders).parts);
    Folder { base, parts }
}

/// The folder for the user's own scripts.
pub open spec fn scripts_folder(system: HostSystem, folders: HostFolders) -> FolderView {
    FolderView {
        base: support_folder(system, folders).base,
        parts: support_folder(system, folders).parts.push("scripts"@),
    }
}

/// The folder for the user's own scripts.
pub fn custom_scripts_dir(system: &HostSystem, folders: &HostFolders) -> (folder: Folder)
    ensures
        folder@ == scripts_folder(*system, *folders),
{
    let mut folder = app_support_dir(system, folders);
    folder.parts.push("scripts".to_owned());
    folder
}

/// What is added to the error of a refresh: where nothing listens for devices, what to install.
pub open spec fn refresh_advice(error: Seq<char>, system: HostSystem) -> Seq<char> {
    if occurs(error, "device socket io failed"@) && occurs(error, "os error 10061"@) {
        match system {
            HostSystem::Windows => " Make sure you have Apple Devices/iTunes installed."@,
            HostSystem::Linux => " Make sure you have usbmuxd installed."@,
            _ => Seq::empty(),
        }
    } else {
        Seq::empty()
    }
}

/// The error of a refresh, with advice where there is some.
pub fn format_device_refresh_error(error: &str, system: &HostSystem) -> (message: String)
    ensures
        message@ == error@ + refresh_advice(error@, *system),
{
    assert(error@ + Seq::<char>::empty() =~= error@);
    if contains(error, "device socket io failed") && contains(error, "os error 10061") {
        match system {
            HostSystem::Windows => concat2(
                error,
                " Make sure you have Apple Devices/iTunes installed.",
            ),
            HostSystem::Linux => concat2(error, " Make sure you have usbmuxd installed."),
            _ => error.to_owned(),
        }
    } else {
        error.to_owned()
    }
}

} // verus!
