//! Keeps a reader on the watched file while the file comes and goes.
//!
//! The watcher is a state machine. Its holder subscribes to the events of
//! the directory and of the file, hands each event to `update`, and does
//! what the answer asks: open the file, or close it. When all events of a
//! batch are through, `take_file_modified` says whether the file is to be
//! read.

use vstd::prelude::*;
use vstd::string::*;

use crate::auth_file_reader::{
    all_lines, byte_lines, joined, lemma_new_reader_reads_every_line, scan, unfinished,
    AuthFileReader, ReadStep, ReaderState,
};
use crate::file_action::FileAction;
use crate::file_event_filter::{action_of, kinds_of, FileEvent, FileEventFilter};
use crate::file_path::{file_path_of, file_path_result_view, FilePath, FilePathView, PathError};

verus! {

/// The number of bytes that the holder reads of the event queue at a time.
pub const EVENT_BUFFER_SIZE: usize = 1024;

/// The room that a new reader has for an unfinished line.
pub const READER_BUFFER_SIZE: usize = 1024;

/// What the holder of the file has to do after an event.
#[derive(Copy, Clone, Debug, PartialEq, Eq, Structural)]
pub enum WatcherCommand {
    /// Nothing.
    Nothing,
    /// Open the watched file and subscribe to its writes; where both
    /// succeed, call `open_new_file`.
    OpenFile,
    /// Close the watched file: it is gone from its path.
    CloseFile,
}

/// What a watcher holds, as mathematics.
pub struct WatcherState {
    /// The reader on the watched file; `None` while the file is absent.
    pub reader: Option<ReaderState>,
    /// Whether an event of this batch asks for a read.
    pub file_modified: bool,
}

impl WatcherState {
    /// The watcher of a file that is not there.
    pub open spec fn absent() -> WatcherState {
        WatcherState { reader: None, file_modified: false }
    }

    /// The watcher after an event that means `action` for the watched file.
    /// A created file asks for a read, as a written one does; a file moved
    /// away or deleted leaves the watcher without a reader.
    pub open spec fn after_action(self, action: Option<FileAction>) -> WatcherState {
        match action {
            None => self,
            Some(FileAction::Created) => WatcherState { file_modified: true, ..self },
            Some(FileAction::Modified) => WatcherState { file_modified: true, ..self },
            Some(FileAction::Moved) => WatcherState { reader: None, ..self },
            Some(FileAction::Deleted) => WatcherState { reader: None, ..self },
        }
    }

    /// What the holder is asked to do after an event that means `action`.
    pub open spec fn command_for(action: Option<FileAction>) -> WatcherCommand {
        match action {
            Some(FileAction::Created) => WatcherCommand::OpenFile,
            Some(FileAction::Moved) => WatcherCommand::CloseFile,
            Some(FileAction::Deleted) => WatcherCommand::CloseFile,
            _ => WatcherCommand::Nothing,
        }
    }

    /// The watcher after the holder opened a file that was there when
    /// watching began, `file_length` bytes long: it is read from its end.
    pub open spec fn with_existing_file(self, file_length: nat) -> WatcherState {
        WatcherState { reader: Some(ReaderState::at_end(file_length)), ..self }
    }

    /// The watcher after the holder opened a file that was created while
    /// watching: it is read from its start.
    pub open spec fn with_new_file(self) -> WatcherState {
        WatcherState { reader: Some(ReaderState::at_start()), ..self }
    }

    /// Whether the file is to be read when a batch of events is through:
    /// an event asked for it, and there is a reader.
    pub open spec fn wants_read(self) -> bool {
        self.file_modified && self.reader is Some
    }

    /// The watcher when a batch of events is through.
    pub open spec fn after_batch(self) -> WatcherState {
        WatcherState { file_modified: false, ..self }
    }

    /// The lines that the watcher hands out for a file that holds `file`.
    pub open spec fn new_lines(self, file: Seq<u8>) -> Seq<Seq<u8>> {
        match self.reader {
            Some(reader) => reader.new_lines(file),
            None => Seq::empty(),
        }
    }

    /// The watcher after it read a file that holds `file`.
    pub open spec fn after_reading(self, file: Seq<u8>) -> WatcherState {
        match self.reader {
            Some(reader) => WatcherState { reader: Some(reader.after_reading(file)), ..self },
            None => self,
        }
    }
}

/// Follows one file by its path through creation, deletion and renaming.
pub struct AuthFileWatcher {
    filepath: String,
    path: FilePath,
    reader: Option<AuthFileReader>,
    event_filter: FileEventFilter,
    file_modified: bool,
}

impl View for AuthFileWatcher {
    type V = WatcherState;

    closed spec fn view(&self) -> WatcherState {
        WatcherState {
            reader: match self.reader {
                Some(reader) => Some(reader@),
                None => None,
            },
            file_modified: self.file_modified,
        }
    }
}

impl AuthFileWatcher {
    /// What holds of every watcher: its reader, if it has one, is well
    /// formed, and its filter lets the events of its own file through.
    pub closed spec fn wf(&self) -> bool {
        &&& match self.reader {
            Some(reader) => reader.wf(),
            None => true,
        }
        &&& self.event_filter.filename() == self.path.filename@
        &&& self.path.directory@.len() > 0
        &&& self.path.filename@.len() > 0
    }

    /// The path that the watcher was made for.
    pub closed spec fn filepath_view(&self) -> Seq<char> {
        self.filepath@
    }

    /// The directory and the name of the watched file.
    pub closed spec fn path_view(&self) -> FilePathView {
        self.path@
    }

    /// What `event` means for the watched file.
    pub open spec fn action_for(&self, event: &FileEvent) -> Option<FileAction> {
        action_of(kinds_of(event.mask), event.name_view(), Some(self.path_view().filename))
    }

    /// A watcher for the file at `filepath`, which need not exist; its
    /// directory has to. The watcher begins without a reader. Its holder
    /// subscribes to the directory, tries to open the file, and tells
    /// the watcher with `open_existing_file` where that succeeded.
    pub fn new(filepath: &str) -> (result: Result<AuthFileWatcher, PathError>)
        ensures
            exists|resolved: Result<Option<Seq<char>>, Seq<char>>|
                match #[trigger] file_path_of(filepath@, resolved) {
                    Ok(path) => result is Ok && result->Ok_0.path_view() == path,
                    Err(error) => result is Err && result->Err_0@ == error,
                },
            match result {
                Ok(watcher) => {
                    &&& watcher.wf()
                    &&& watcher@ == WatcherState::absent()
                    &&& watcher.filepath_view() == filepath@
                },
                Err(_) => true,
            },
    {
        let found = FilePath::from(filepath);
        let ghost resolved = choose|resolved: Result<Option<Seq<char>>, Seq<char>>|
            file_path_result_view(found) == #[trigger] file_path_of(filepath@, resolved);
        let path = match found {
            Ok(path) => path,
            Err(error) => {
                let result = Err(error);
                assert(file_path_of(filepath@, resolved) is Err);
                return result;
            },
        };
        let event_filter = FileEventFilter::new(path.filename.as_str());
        let result = Ok(
            AuthFileWatcher {
                filepath: String::from_str(filepath),
                path,
                reader: None,
                event_filter,
                file_modified: false,
            },
        );
        assert(file_path_of(filepath@, resolved) is Ok);
        result
    }

    /// The path that the watcher was made for.
    pub fn filepath(&self) -> (filepath: &str)
        ensures
            filepath@ == self.filepath_view(),
    {
        self.filepath.as_str()
    }

    /// The canonical directory of the watched file, to subscribe to. It
    /// is never empty.
    pub fn directory(&self) -> (directory: &str)
        ensures
            directory@ == self.path_view().directory,
            self.wf() ==> directory@.len() > 0,
    {
        self.path.directory.as_str()
    }

    /// The name of the watched file in its directory. It is never empty.
    pub fn filename(&self) -> (filename: &str)
        ensures
            filename@ == self.path_view().filename,
            self.wf() ==> filename@.len() > 0,
    {
        self.path.filename.as_str()
    }

    /// Whether the watcher has a reader: the watched file is present.
    pub fn is_present(&self) -> (present: bool)
        ensures
            present == (self@.reader is Some),
    {
        self.reader.is_some()
    }

    /// Tells the watcher that its holder opened the watched file, which
    /// was there before watching began and is `file_length` bytes long.
    /// The reader starts at the end: what the file holds is not read.
    pub fn open_existing_file(&mut self, file_length: u64)
        requires
            old(self).wf(),
        ensures
            final(self).wf(),
            final(self)@ == old(self)@.with_existing_file(file_length as nat),
            final(self).path_view() == old(self).path_view(),
            final(self).filepath_view() == old(self).filepath_view(),
    {
        let mut reader = AuthFileReader::new(READER_BUFFER_SIZE);
        reader.seek_to_end(file_length);
        self.reader = Some(reader);
    }

    /// Tells the watcher that its holder opened the watched file after it
    /// was created. The reader starts at the first byte: what was written
    /// before the creation was seen is read too.
    pub fn open_new_file(&mut self)
        requires
            old(self).wf(),
        ensures
            final(self).wf(),
            final(self)@ == old(self)@.with_new_file(),
            final(self).path_view() == old(self).path_view(),
            final(self).filepath_view() == old(self).filepath_view(),
    {
        self.reader = Some(AuthFileReader::new(READER_BUFFER_SIZE));
    }

    /// Takes one event. An event that does not concern the watched file
    /// changes nothing. A write, and the creation of the file, mark the
    /// file as modified; the creation also asks the holder to open it. A
    /// move away and a deletion drop the reader and ask the holder to
    /// close the file.
    pub fn update(&mut self, event: &FileEvent) -> (command: WatcherCommand)
        requires
            old(self).wf(),
        ensures
            final(self).wf(),
            final(self)@ == old(self)@.after_action(old(self).action_for(event)),
            command == WatcherState::command_for(old(self).action_for(event)),
            final(self).path_view() == old(self).path_view(),
            final(self).filepath_view() == old(self).filepath_view(),
    {
        match self.event_filter.get_action(event) {
            None => WatcherCommand::Nothing,
            Some(FileAction::Created) => {
                self.file_modified = true;
                WatcherCommand::OpenFile
            },
            Some(FileAction::Modified) => {
                self.file_modified = true;
                WatcherCommand::Nothing
            },
            Some(FileAction::Moved) => {
                self.reader = None;
                WatcherCommand::CloseFile
            },
            Some(FileAction::Deleted) => {
                self.reader = None;
                WatcherCommand::CloseFile
            },
        }
    }

    /// Ends a batch of events: says whether the file is to be read now,
    /// which is so where an event of the batch marked it as modified and
    /// the watcher has a reader, and clears the mark.
    pub fn take_file_modified(&mut self) -> (read: bool)
        requires
            old(self).wf(),
        ensures
            final(self).wf(),
            read == old(self)@.wants_read(),
            final(self)@ == old(self)@.after_batch(),
            final(self).path_view() == old(self).path_view(),
            final(self).filepath_view() == old(self).filepath_view(),
    {
        let read = self.file_modified && self.reader.is_some();
        self.file_modified = false;
        read
    }

    /// The offset at which the holder reads the file next, while there is
    /// a reader.
    pub fn read_position(&self) -> (position: Option<u64>)
        ensures
            position is Some == (self@.reader is Some),
            position is Some ==> position->Some_0 == self@.reader->Some_0.position,
    {
        match &self.reader {
            Some(reader) => Some(reader.position()),
            None => None,
        }
    }

    /// Takes the bytes that the holder read from the file at the reader's
    /// offset, and hands out the lines that end in them. Without a reader
    /// there is no line.
    pub fn accept(&mut self, data: &[u8]) -> (lines: Vec<Vec<u8>>)
        requires
            old(self).wf(),
            old(self)@.reader is Some ==> old(self)@.reader->Some_0.position + data@.len()
                <= u64::MAX,
        ensures
            final(self).wf(),
            final(self).path_view() == old(self).path_view(),
            final(self).filepath_view() == old(self).filepath_view(),
            final(self)@.file_modified == old(self)@.file_modified,
            match old(self)@.reader {
                Some(reader) => {
                    &&& byte_lines(lines@) == scan(reader.pending, data@).lines
                    &&& final(self)@.reader == Some(reader.after(data@))
                },
                None => lines@.len() == 0 && final(self)@.reader is None,
            },
    {
        match &mut self.reader {
            Some(reader) => reader.accept(data),
            None => Vec::new(),
        }
    }

    /// Decides what follows a read that returned no bytes, for a file that
    /// is now `file_length` bytes long: a rewind where the file was cut
    /// short, else a stop. Without a reader it is a stop.
    pub fn end_of_data(&mut self, file_length: u64) -> (step: ReadStep)
        requires
            old(self).wf(),
        ensures
            final(self).wf(),
            final(self).path_view() == old(self).path_view(),
            final(self).filepath_view() == old(self).filepath_view(),
            final(self)@.file_modified == old(self)@.file_modified,
            match old(self)@.reader {
                Some(reader) => {
                    &&& final(self)@.reader == Some(reader.resumed(file_length as nat))
                    &&& step == if reader.sees_truncation(file_length as nat) {
                        ReadStep::Rewind
                    } else {
                        ReadStep::Stop
                    }
                },
                None => step == ReadStep::Stop && final(self)@.reader is None,
            },
    {
        match &mut self.reader {
            Some(reader) => reader.end_of_data(file_length),
            None => ReadStep::Stop,
        }
    }

    /// Reads what is new in the watched file, which now holds `file`, and
    /// hands out the lines that have ended since the last read. Without a
    /// reader there is no line.
    pub fn read_new_lines(&mut self, file: &[u8]) -> (lines: Vec<Vec<u8>>)
        requires
            old(self).wf(),
        ensures
            final(self).wf(),
            final(self).path_view() == old(self).path_view(),
            final(self).filepath_view() == old(self).filepath_view(),
            byte_lines(lines@) == old(self)@.new_lines(file@),
            final(self)@ == old(self)@.after_reading(file@),
    {
        match &mut self.reader {
            Some(reader) => reader.read_new_lines(file),
            None => {
                let lines: Vec<Vec<u8>> = Vec::new();
                assert(byte_lines(lines@) =~= Seq::<Seq<u8>>::empty());
                lines
            },
        }
    }
}

/// Rotation by deleting and creating again: whatever the watcher held, when
/// the watched file was deleted and a file of its name was created and
/// opened, the watcher asks for a read and hands out the whole lines of
/// the new file from its first byte on, each once and in order, none of
/// them from the old file.
pub proof fn lemma_rotation_by_delete(watcher: WatcherState, lines: Seq<Seq<u8>>, partial: Seq<u8>)
    requires
        all_lines(lines),
        unfinished(partial),
    ensures
        watcher.after_action(Some(FileAction::Deleted)).reader is None,
        WatcherState::command_for(Some(FileAction::Deleted)) == WatcherCommand::CloseFile,
        WatcherState::command_for(Some(FileAction::Created)) == WatcherCommand::OpenFile,
        ({
            let rotated = watcher.after_action(Some(FileAction::Deleted)).after_action(
                Some(FileAction::Created),
            ).with_new_file();
            &&& rotated.wants_read()
            &&& rotated.reader == Some(ReaderState::at_start())
            &&& rotated.new_lines(joined(lines) + partial) == lines
            &&& rotated.after_reading(joined(lines) + partial).reader->Some_0.pending == partial
        }),
{
    lemma_new_reader_reads_every_line(lines, partial);
}

/// Rotation by renaming and creating again goes as rotation by deleting
/// does: a file moved away leaves the watcher as a deleted one leaves it,
/// and the lines of the new file are handed out from its first byte on.
pub proof fn lemma_rotation_by_rename(watcher: WatcherState, lines: Seq<Seq<u8>>, partial: Seq<u8>)
    requires
        all_lines(lines),
        unfinished(partial),
    ensures
        watcher.after_action(Some(FileAction::Moved)) == watcher.after_action(
            Some(FileAction::Deleted),
        ),
        WatcherState::command_for(Some(FileAction::Moved)) == WatcherState::command_for(
            Some(FileAction::Deleted),
        ),
        ({
            let rotated = watcher.after_action(Some(FileAction::Moved)).after_action(
                Some(FileAction::Created),
            ).with_new_file();
            &&& rotated.wants_read()
            &&& rotated.reader == Some(ReaderState::at_start())
            &&& rotated.new_lines(joined(lines) + partial) == lines
        }),
{
    lemma_rotation_by_delete(watcher, lines, partial);
}

} // verus!
