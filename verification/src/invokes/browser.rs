//! The browsers this program knows, and where each system keeps them.

use crate::text::same_text;
use vstd::prelude::*;
use vstd::string::StringExecFns;

verus! {

/// A browser and whether it was found on this machine.
#[derive(Clone, Copy, Debug)]
pub struct Browser {
    /// The name by which the browser is opened.
    pub id: &'static str,
    /// The name to show.
    pub name: &'static str,
    /// Whether it was found installed.
    pub installed: bool,
}

/// The browsers that are looked for, in the order in which they are shown,
/// none of them marked as installed yet.
pub fn supported_browsers() -> (browsers: Vec<Browser>)
    ensures
        browsers@.len() == 3,
        browsers@[0].id@ == "chrome"@ && browsers@[0].name@ == "Google Chrome"@,
        browsers@[1].id@ == "msedge"@ && browsers@[1].name@ == "Microsoft Edge"@,
        browsers@[2].id@ == "firefox"@ && browsers@[2].name@ == "Mozilla Firefox"@,
        forall|i: int| 0 <= i < 3 ==> !(#[trigger] browsers@[i]).installed,
{
    let mut browsers: Vec<Browser> = Vec::new();
    browsers.push(Browser { id: "chrome", name: "Google Chrome", installed: false });
    browsers.push(Browser { id: "msedge", name: "Microsoft Edge", installed: false });
    browsers.push(Browser { id: "firefox", name: "Mozilla Firefox", installed: false });
    browsers
}

/// The command that starts a browser on Linux.
pub open spec fn linux_command_of(id: Seq<char>) -> Seq<char> {
    if id == "chrome"@ {
        "google-chrome"@
    } else if id == "msedge"@ {
        "microsoft-edge"@
    } else {
        id
    }
}

/// The file name of a browser's program on Windows.
pub open spec fn windows_executable_of(id: Seq<char>) -> Option<Seq<char>> {
    if id == "chrome"@ {
        Some("chrome.exe"@)
    } else if id == "msedge"@ {
        Some("msedge.exe"@)
    } else if id == "firefox"@ {
        Some("firefox.exe"@)
    } else {
        None
    }
}

/// The directory, below the programs directory, that holds a browser's
/// program on Windows.
pub open spec fn windows_directory_of(id: Seq<char>) -> Seq<char> {
    if id == "chrome"@ {
        "Google\\Chrome\\Application"@
    } else if id == "msedge"@ {
        "Microsoft\\Edge\\Application"@
    } else if id == "firefox"@ {
        "Mozilla Firefox"@
    } else {
        ""@
    }
}

/// The command to look for on the search path of a Linux system: the known
/// browsers have their own, any other is looked for under its id.
pub fn linux_command<'a>(id: &'a str) -> (command: &'a str)
    ensures
        command@ == linux_command_of(id@),
{
    if same_text(id, "chrome") {
        "google-chrome"
    } else if same_text(id, "msedge") {
        "microsoft-edge"
    } else {
        id
    }
}

/// The file name of the browser's program on Windows; `None` for a browser
/// that is not known.
pub fn windows_executable(id: &str) -> (name: Option<&'static str>)
    ensures
        match name {
            Some(file) => windows_executable_of(id@) == Some(file@),
            None => windows_executable_of(id@) is None,
        },
{
    if same_text(id, "chrome") {
        Some("chrome.exe")
    } else if same_text(id, "msedge") {
        Some("msedge.exe")
    } else if same_text(id, "firefox") {
        Some("firefox.exe")
    } else {
        None
    }
}

/// The directory of the browser's program on Windows, below the programs
/// directory; empty for a browser that is not known.
pub fn windows_directory(id: &str) -> (directory: &'static str)
    ensures
        directory@ == windows_directory_of(id@),
{
    if same_text(id, "chrome") {
        "Google\\Chrome\\Application"
    } else if same_text(id, "msedge") {
        "Microsoft\\Edge\\Application"
    } else if same_text(id, "firefox") {
        "Mozilla Firefox"
    } else {
        ""
    }
}

/// The name of a program's bundle in the applications directory of macOS.
pub fn macos_bundle(name: &str) -> (bundle: String)
    ensures
        bundle@ == name@ + ".app"@,
{
    let mut bundle = name.to_owned();
    bundle.append(".app");
    bundle
}

} // verus!
