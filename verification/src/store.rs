//! What is written to disk for a record, and where.
//!
//! Each target has one status file, named after its id. Every check replaces
//! the whole file with the JSON text of the record. This module says what to
//! write; writing it is left to the caller.

use crate::clock::current_time_seconds;
use crate::json::{record_json, RenderError};
use crate::record::{observe, SystemInfo, SystemInfoView};
use crate::status::SystemStatus;
use vstd::prelude::*;
use vstd::string::*;

verus! {

/// A status file to be written: its path and its whole contents.
#[derive(Clone, Debug)]
pub struct StatusFile {
    pub path: String,
    pub contents: String,
}

/// A status file as plain values.
pub struct StatusFileView {
    pub path: Seq<char>,
    pub contents: Seq<char>,
}

impl View for StatusFile {
    type V = StatusFileView;

    open spec fn view(&self) -> StatusFileView {
        StatusFileView { path: self.path@, contents: self.contents@ }
    }
}

/// The directory of the status files, relative to the working directory.
pub const STATUS_DIR: &'static str = "status";

/// Where the status file of a target lies: in the directory of the status
/// files, under the target's id with the extension `.json`.
pub open spec fn status_path(id: Seq<char>) -> Seq<char> {
    STATUS_DIR@ + "/"@ + id + ".json"@
}

/// The status file of a record: its JSON text, under the path of its id.
/// There is none where the record has no JSON text.
pub open spec fn status_file(record: SystemInfoView) -> Option<StatusFileView> {
    match record_json(record) {
        Some(contents) => Some(StatusFileView { path: status_path(record.id), contents }),
        None => None,
    }
}

/// Why a check could not be recorded.
#[derive(Clone, Copy, Debug, PartialEq, Eq, Structural)]
pub enum UpdateError {
    /// The system clock stands before the Unix epoch.
    ClockBeforeEpoch,
    /// The record could not be rendered.
    Render,
}

/// The path of the status file of the target `id`.
pub fn path_of(id: &str) -> (path: String)
    ensures
        path@ == status_path(id@),
{
    let mut path = String::from_str(STATUS_DIR);
    path.append("/");
    path.append(id);
    path.append(".json");
    path
}

/// The status file that holds `record` as it is now. It fails exactly where
/// the record has no JSON text.
pub fn render(record: &SystemInfo) -> (out: Result<StatusFile, RenderError>)
    ensures
        match out {
            Ok(file) => status_file(record@) == Some(file@),
            Err(error) => status_file(record@) is None && error == RenderError::Quote,
        },
{
    match record.to_json() {
        Ok(contents) => Ok(StatusFile { path: path_of(record.id.as_str()), contents }),
        Err(error) => Err(error),
    }
}

/// Records that `new_status` was seen at `now`, and renders the file to write.
///
/// The record is updated whether or not it can be rendered.
pub fn update_status_at(system: &mut SystemInfo, new_status: SystemStatus, now: u64) -> (out: Result<
    StatusFile,
    RenderError,
>)
    ensures
        final(system)@ == observe(old(system)@, new_status, now as nat),
        match out {
            Ok(file) => status_file(final(system)@) == Some(file@),
            Err(error) => status_file(final(system)@) is None && error == RenderError::Quote,
        },
{
    system.apply_observation(new_status, now);
    render(system)
}

/// Records that `new_status` was seen just now, and renders the file to write.
///
/// The time is read from the system clock. Where the clock stands before the
/// epoch the record is left as it was.
pub fn update_status(system: &mut SystemInfo, new_status: SystemStatus) -> (out: Result<
    StatusFile,
    UpdateError,
>)
    ensures
        match out {
            Ok(file) => {
                &&& final(system)@ == observe(old(system)@, new_status, final(system)@.updated)
                &&& status_file(final(system)@) == Some(file@)
            },
            Err(UpdateError::Render) => {
                &&& final(system)@ == observe(old(system)@, new_status, final(system)@.updated)
                &&& status_file(final(system)@) is None
            },
            Err(UpdateError::ClockBeforeEpoch) => final(system)@ == old(system)@,
        },
{
    match current_time_seconds() {
        Some(now) => match update_status_at(system, new_status, now) {
            Ok(file) => Ok(file),
            Err(_) => Err(UpdateError::Render),
        },
        None => Err(UpdateError::ClockBeforeEpoch),
    }
}

} // verus!
