//! Which file events concern the watched file, and what they mean for it.

use vstd::prelude::*;
use vstd::string::*;

use crate::file_action::FileAction;
use crate::text::str_equals;

verus! {

/// The bit of an event mask that says that a file was written to.
pub const MODIFY: u32 = 0x0000_0002;

/// The bit of an event mask that says that a file was moved out of the
/// watched directory.
pub const MOVED_FROM: u32 = 0x0000_0040;

/// The bit of an event mask that says that a file was created in the
/// watched directory.
pub const CREATE: u32 = 0x0000_0100;

/// The bit of an event mask that says that a file was deleted from the
/// watched directory.
pub const DELETE: u32 = 0x0000_0200;

/// One record of the file-change notification: the mask of its flags, as
/// the kernel wrote it, and the name of the file it speaks of where the
/// record came from a watched directory.
#[derive(Debug)]
pub struct FileEvent {
    /// The flags of the record.
    pub mask: u32,
    /// The file's name, for a record of the directory watch.
    pub name: Option<String>,
}

/// The four flags of an event that the watcher reads.
#[derive(Copy, Clone, Debug, PartialEq, Eq, Structural)]
pub struct EventKinds {
    pub modified: bool,
    pub created: bool,
    pub moved_from: bool,
    pub deleted: bool,
}

/// The four flags that `mask` holds.
pub open spec fn kinds_of(mask: u32) -> EventKinds {
    EventKinds {
        modified: mask & MODIFY == MODIFY,
        created: mask & CREATE == CREATE,
        moved_from: mask & MOVED_FROM == MOVED_FROM,
        deleted: mask & DELETE == DELETE,
    }
}

/// Asks `EventMask::contains` of inotify, on the mask made of `mask` by
/// `EventMask::from_bits_truncate`, for each of the flags `MODIFY`,
/// `CREATE`, `MOVED_FROM` and `DELETE`. Assumed: each answer says whether
/// the flag's bit, as the constants of this module give it, is set in
/// `mask`.
#[verifier::external_body]
fn event_kinds(mask: u32) -> (kinds: EventKinds)
    ensures
        kinds == kinds_of(mask),
{
    let mask = inotify::EventMask::from_bits_truncate(mask);
    EventKinds {
        modified: mask.contains(inotify::EventMask::MODIFY),
        created: mask.contains(inotify::EventMask::CREATE),
        moved_from: mask.contains(inotify::EventMask::MOVED_FROM),
        deleted: mask.contains(inotify::EventMask::DELETE),
    }
}

/// What an event with the flags `kinds` and the name `name` means for the
/// file that is called `filename`. A write counts whatever the name; of
/// the other flags the first that is set, in the order created, moved,
/// deleted, counts where the event names the file. `None` for `filename`
/// stands for a watched path without a file name.
pub open spec fn action_of(
    kinds: EventKinds,
    name: Option<Seq<char>>,
    filename: Option<Seq<char>>,
) -> Option<FileAction> {
    if kinds.modified {
        Some(FileAction::Modified)
    } else if name is None || filename is None || name != filename {
        None
    } else if kinds.created {
        Some(FileAction::Created)
    } else if kinds.moved_from {
        Some(FileAction::Moved)
    } else if kinds.deleted {
        Some(FileAction::Deleted)
    } else {
        None
    }
}

impl FileEvent {
    /// The name of the file that the event speaks of, as characters.
    pub open spec fn name_view(&self) -> Option<Seq<char>> {
        match self.name {
            Some(name) => Some(name@),
            None => None,
        }
    }

    /// An event with the flags `mask` and the file name `name`.
    pub fn new(mask: u32, name: Option<String>) -> (event: FileEvent)
        ensures
            event.mask == mask,
            event.name == name,
    {
        FileEvent { mask, name }
    }

    /// Whether the event says that a file was written to.
    pub fn is_modify(&self) -> (modified: bool)
        ensures
            modified == kinds_of(self.mask).modified,
    {
        event_kinds(self.mask).modified
    }

    /// What the event means for a file that is called `filename`.
    pub fn action_for(&self, filename: &str) -> (action: Option<FileAction>)
        ensures
            action == action_of(kinds_of(self.mask), self.name_view(), Some(filename@)),
    {
        let kinds = event_kinds(self.mask);
        if kinds.modified {
            return Some(FileAction::Modified);
        }
        let event_filename = match &self.name {
            Some(name) => name,
            None => {
                return None;
            },
        };
        if !str_equals(event_filename.as_str(), filename) {
            return None;
        }
        if kinds.created {
            return Some(FileAction::Created);
        }
        if kinds.moved_from {
            return Some(FileAction::Moved);
        }
        if kinds.deleted {
            return Some(FileAction::Deleted);
        }
        None
    }
}

/// Picks, from the events of a watched directory and a watched file, those
/// that concern the file of one name.
pub struct FileEventFilter {
    filename: String,
}

impl FileEventFilter {
    /// The name of the file whose events pass the filter.
    pub closed spec fn filename(&self) -> Seq<char> {
        self.filename@
    }

    /// A filter for the file that is called `filename`.
    pub fn new(filename: &str) -> (filter: FileEventFilter)
        ensures
            filter.filename() == filename@,
    {
        FileEventFilter { filename: String::from_str(filename) }
    }

    /// What `event` means for the watched file, or `None` where it does not
    /// concern it.
    pub fn get_action(&self, event: &FileEvent) -> (action: Option<FileAction>)
        ensures
            action == action_of(kinds_of(event.mask), event.name_view(), Some(self.filename())),
    {
        event.action_for(self.filename.as_str())
    }
}

} // verus!
