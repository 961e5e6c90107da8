//! The texts and colours that the window shows for what it remembers.
use vstd::prelude::*;

use crate::debugger::{AppView, DebuggerApp};
use crate::device::{CheckStatus, CheckStatusView, DeviceStatus, DeviceStatusView};
use crate::text::{concat2, lemma_views_empty, lemma_views_push, outcome_view, views};

verus! {

broadcast use {lemma_views_empty, lemma_views_push};

/// A colour by its red, green and blue parts.
#[derive(Debug, Clone, Copy, PartialEq, Eq, Structural)]
pub struct Colour {
    pub red: u8,
    pub green: u8,
    pub blue: u8,
}

/// The words for how a check went.
pub open spec fn check_words(status: CheckStatusView) -> Seq<char> {
    match status {
        CheckStatusView::Success => "Success"@,
        CheckStatusView::Failed(error) => "Failed: "@ + error,
    }
}

/// The words for how a check went.
pub fn format_check_status(status: &CheckStatus) -> (words: String)
    ensures
        words@ == check_words(status@),
{
    match status {
        CheckStatus::Success => "Success".to_owned(),
        CheckStatus::Failed(error) => concat2("Failed: ", error.as_str()),
    }
}

/// The three lines that show the status of a device.
pub open spec fn status_lines(status: Result<DeviceStatusView, Seq<char>>) -> Seq<Seq<char>> {
    match status {
        Ok(status) => seq![
            "Wireless Debugging: "@ + check_words(status.wireless_debugging),
            "Developer Mode: "@ + check_words(status.developer_mode),
            "Developer Disk Image: "@ + check_words(status.developer_disk_image),
        ],
        Err(error) => seq![
            "Wireless Debugging: Failed: "@ + error,
            "Developer Mode: Failed: "@ + error,
            "Developer Disk Image: Failed: "@ + error,
        ],
    }
}

/// The three lines that show the status of a device.
pub fn device_status_lines(status: &Result<DeviceStatus, String>) -> (lines: Vec<String>)
    ensures
        views(lines@) == status_lines(outcome_view(*status)),
{
    let mut lines: Vec<String> = Vec::new();
    match status {
        Ok(status) => {
            let wireless_debugging = format_check_status(&status.wireless_debugging);
            let developer_mode = format_check_status(&status.developer_mode);
            let developer_disk_image = format_check_status(&status.developer_disk_image);
            lines.push(concat2("Wireless Debugging: ", wireless_debugging.as_str()));
            lines.push(concat2("Developer Mode: ", developer_mode.as_str()));
            lines.push(concat2("Developer Disk Image: ", developer_disk_image.as_str()));
        },
        Err(error) => {
            lines.push(concat2("Wireless Debugging: Failed: ", error.as_str()));
            lines.push(concat2("Developer Mode: Failed: ", error.as_str()));
            lines.push(concat2("Developer Disk Image: Failed: ", error.as_str()));
        },
    }
    assert(views(lines@) =~= status_lines(outcome_view(*status)));
    lines
}

impl AppView {
    /// The lines under the list of devices.
    pub open spec fn status_text(self) -> Seq<Seq<char>> {
        match self.device_status {
            Some(status) => status_lines(status),
            None => if self.selected_device is Some {
                seq!["Checking wireless debugging, Developer Mode, and DDI..."@]
            } else {
                Seq::empty()
            },
        }
    }

    /// The name of the selected script.
    pub open spec fn script_label(self) -> Seq<char> {
        match self.selected_script_entry() {
            Some(entry) => entry.name,
            None => "No script selected"@,
        }
    }

    /// The lines under the list of scripts.
    pub open spec fn script_hints(self) -> Seq<Seq<char>> {
        let hint = if self.selected_script_is_editable() {
            "Imported scripts can be deleted."@
        } else {
            "Built-in scripts cannot be deleted."@
        };
        if self.script_running {
            seq!["Script switching is disabled while a script is running."@, hint]
        } else {
            seq![hint]
        }
    }

    /// The colour of the light that tells whether a process is attached to.
    pub open spec fn attached_colour(self) -> Colour {
        if self.attached {
            Colour { red: 80, green: 200, blue: 120 }
        } else {
            Colour { red: 140, green: 140, blue: 140 }
        }
    }

    /// The colour of the light that tells whether a script runs.
    pub open spec fn script_running_colour(self) -> Colour {
        if self.script_running {
            Colour { red: 255, green: 196, blue: 64 }
        } else {
            Colour { red: 140, green: 140, blue: 140 }
        }
    }
}

impl DebuggerApp {
    /// The lines under the list of devices.
    pub fn status_text(&self) -> (lines: Vec<String>)
        ensures
            views(lines@) == self@.status_text(),
    {
        match &self.device_status {
            Some(status) => device_status_lines(status),
            None => {
                let mut lines: Vec<String> = Vec::new();
                if self.selected_device.is_some() {
                    lines.push(
                        "Checking wireless debugging, Developer Mode, and DDI...".to_owned(),
                    );
                }
                assert(views(lines@) =~= self@.status_text());
                lines
            },
        }
    }

    /// The name of the selected script.
    pub fn script_label(&self) -> (label: String)
        ensures
            label@ == self@.script_label(),
    {
        match self.selected_script_entry() {
            Some(entry) => entry.name.clone(),
            None => "No script selected".to_owned(),
        }
    }

    /// The lines under the list of scripts.
    pub fn script_hints(&self) -> (lines: Vec<String>)
        ensures
            views(lines@) == self@.script_hints(),
    {
        let mut lines: Vec<String> = Vec::new();
        if self.script_running {
            lines.push("Script switching is disabled while a script is running.".to_owned());
        }
        if self.selected_script_is_editable() {
            lines.push("Imported scripts can be deleted.".to_owned());
        } else {
            lines.push("Built-in scripts cannot be deleted.".to_owned());
        }
        assert(views(lines@) =~= self@.script_hints());
        lines
    }

    /// The colour of the light that tells whether a process is attached to.
    pub fn attached_colour(&self) -> (colour: Colour)
        ensures
            colour == self@.attached_colour(),
    {
        if self.attached {
            Colour { red: 80, green: 200, blue: 120 }
        } else {
            Colour { red: 140, green: 140, blue: 140 }
        }
    }

    /// The colour of the light that tells whether a script runs.
    pub fn script_running_colour(&self) -> (colour: Colour)
        ensures
            colour == self@.script_running_colour(),
    {
        if self.script_running {
            Colour { red: 255, green: 196, blue: 64 }
        } else {
            Colour { red: 140, green: 140, blue: 140 }
        }
    }
}

} // verus!
