//! The small services beside the backend bridge: opening a directory in
//! the host's file manager, describing a file, greeting.

use vstd::prelude::*;
use crate::envelope::FileInfo;
use crate::text::append_text;

verus! {

/// What precedes the operating system's words when the file manager could
/// not be started.
pub const OPEN_DIRECTORY_FAILURE_PREFIX: &'static str = "Failed to open directory: ";

/// What precedes the operating system's words when a file's metadata
/// cannot be read.
pub const METADATA_FAILURE_PREFIX: &'static str = "Error obteniendo información del archivo: ";

/// What precedes the operating system's words when a file's modification
/// time cannot be read.
pub const MODIFIED_FAILURE_PREFIX: &'static str = "Error obteniendo fecha de modificación: ";

/// What precedes the description of a modification time that lies before
/// the Unix epoch.
pub const EPOCH_FAILURE_PREFIX: &'static str = "Error convirtiendo fecha: ";

/// The host platforms that are told apart when a directory is opened.
#[derive(Debug, Clone, Copy, PartialEq, Eq)]
pub enum Platform {
    Windows,
    MacOs,
    Linux,
    /// Any other host: it has no known file manager.
    Other,
}

/// The program that shows a directory on `platform`, if one is known.
pub open spec fn launcher(platform: Platform) -> Option<Seq<char>> {
    match platform {
        Platform::Windows => Some("explorer"@),
        Platform::MacOs => Some("open"@),
        Platform::Linux => Some("xdg-open"@),
        Platform::Other => None,
    }
}

/// A program to start with one argument, without waiting for it.
#[derive(Debug, Clone, PartialEq, Eq)]
pub struct Launch {
    pub program: String,
    pub argument: String,
}

/// The launch that shows the directory `path` on `platform`, or `None` on
/// a platform without a known file manager, where nothing is started.
pub fn open_directory(platform: Platform, path: String) -> (launch: Option<Launch>)
    ensures
        match launcher(platform) {
            Some(program) => launch matches Some(l) && l.program@ == program && l.argument@
                == path@,
            None => launch is None,
        },
{
    match platform {
        Platform::Windows => Some(Launch { program: "explorer".to_owned(), argument: path }),
        Platform::MacOs => Some(Launch { program: "open".to_owned(), argument: path }),
        Platform::Linux => Some(Launch { program: "xdg-open".to_owned(), argument: path }),
        Platform::Other => None,
    }
}

/// The error text for a file manager that could not be started, from the
/// operating system's description of why.
pub fn open_directory_failure(os_error: &str) -> (message: String)
    ensures
        message@ == OPEN_DIRECTORY_FAILURE_PREFIX@ + os_error@,
{
    append_text(OPEN_DIRECTORY_FAILURE_PREFIX, os_error)
}

/// What was learnt of a file, up to the first thing that went wrong.
#[derive(Debug, Clone, PartialEq, Eq)]
pub enum FileProbe {
    /// The metadata could not be read; the text says why.
    MetadataUnavailable(String),
    /// The modification time could not be read; the text says why.
    ModifiedUnavailable(String),
    /// The modification time lies before the Unix epoch; the text says so.
    BeforeEpoch(String),
    /// The length in bytes, and the modification time in seconds since the
    /// Unix epoch.
    Read { size: u64, modified: u64 },
}

/// The description of a file, or the error text for the first thing that
/// went wrong while it was looked at.
pub fn get_file_info(probe: FileProbe) -> (info: Result<FileInfo, String>)
    ensures
        match probe {
            FileProbe::MetadataUnavailable(why) => info matches Err(message) && message@
                == METADATA_FAILURE_PREFIX@ + why@,
            FileProbe::ModifiedUnavailable(why) => info matches Err(message) && message@
                == MODIFIED_FAILURE_PREFIX@ + why@,
            FileProbe::BeforeEpoch(why) => info matches Err(message) && message@
                == EPOCH_FAILURE_PREFIX@ + why@,
            FileProbe::Read { size, modified } => info == Ok::<FileInfo, String>(
                FileInfo { size, modified },
            ),
        },
{
    match probe {
        FileProbe::MetadataUnavailable(why) => Err(append_text(METADATA_FAILURE_PREFIX, why.as_str())),
        FileProbe::ModifiedUnavailable(why) => Err(append_text(MODIFIED_FAILURE_PREFIX, why.as_str())),
        FileProbe::BeforeEpoch(why) => Err(append_text(EPOCH_FAILURE_PREFIX, why.as_str())),
        FileProbe::Read { size, modified } => Ok(FileInfo { size, modified }),
    }
}

/// The greeting for `name`.
pub fn greet(name: &str) -> (greeting: String)
    ensures
        greeting@ == "Hello, "@ + name@ + "! You've been greeted from Rust!"@,
{
    let mut greeting = append_text("Hello, ", name);
    greeting.append("! You've been greeted from Rust!");
    greeting
}

} // verus!
