//! What an event means for the watched file.

use vstd::prelude::*;

use crate::file_event_filter::{action_of, kinds_of, FileEvent};
use crate::file_path::{file_name_of, path_file_name};

verus! {

/// What became of the watched file.
#[derive(Copy, Clone, Debug, PartialEq, Eq, Structural)]
pub enum FileAction {
    /// A file of the watched name was created.
    Created,
    /// The watched file was written to.
    Modified,
    /// The watched file was moved away.
    Moved,
    /// The watched file was deleted.
    Deleted,
}

impl FileAction {
    /// What `event` means for the file at `filepath`: a write counts
    /// always, the rest only where the event names the last part of
    /// `filepath`.
    pub fn from_event(event: &FileEvent, filepath: &str) -> (action: Option<FileAction>)
        ensures
            action == action_of(kinds_of(event.mask), event.name_view(), path_file_name(filepath@)),
    {
        if event.is_modify() {
            return Some(FileAction::Modified);
        }
        if event.name.is_none() {
            return None;
        }
        match file_name_of(filepath) {
            Some(filename) => event.action_for(filename.as_str()),
            None => None,
        }
    }
}

} // verus!
