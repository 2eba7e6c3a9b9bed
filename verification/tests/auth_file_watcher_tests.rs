use std::cell::RefCell;
use std::rc::Rc;

use chrono::{TimeZone, Utc};
use inotify::EventMask;

use auth_monitor::auth_file_reader::ReadStep;
use auth_monitor::auth_file_watcher::{AuthFileWatcher, WatcherCommand};
use auth_monitor::auth_message_parser::DATE_FORMAT_ISO_8601;
use auth_monitor::file_event_filter::FileEvent;
use auth_monitor::file_path::PathError;

const TEST_MESSAGES: [&str; 6] = [
    "workstation sudo: pam_unix(sudo:auth): authentication failure; logname=john uid=1000 euid=0 tty=/dev/pts/7 ruser=john rhost=  user=john",
    "workstation kscreenlocker_greet: pam_unix(kde:auth): authentication failure; logname= uid=1000 euid=1000 tty= ruser= rhost=  user=john",
    "workstation dbus-daemon[1988]: [system] Failed to activate service 'org.bluez': timed out (service_start_timeout=25000ms)",
    "workstation CRON[9419]: pam_unix(cron:session): session opened for user root(uid=0) by (uid=0)",
    "workstation CRON[9419]: pam_unix(cron:session): session closed for user root",
    "workstation PackageKit: uid 1000 is trying to obtain org.freedesktop.packagekit.system-sources-refresh auth (only_trusted:0)",
];

const DIRECTORY: &str = "/tmp";
const CHUNK_SIZE: usize = 7;

/// The files of one directory, held in memory, with the events that a
/// subscription to the directory and to its files would have queued.
struct Disk {
    files: Vec<(String, Vec<u8>)>,
    events: Vec<FileEvent>,
    now_millis: i64,
    next_id: usize,
}

impl Disk {
    fn new() -> Rc<RefCell<Disk>> {
        Rc::new(RefCell::new(Disk {
            files: Vec::new(),
            events: Vec::new(),
            now_millis: 1_700_000_000_000,
            next_id: 1,
        }))
    }

    fn name_of(path: &str) -> String {
        String::from(path.rsplit('/').next().unwrap())
    }

    fn position(&self, path: &str) -> Option<usize> {
        self.files.iter().position(|(name, _)| name == path)
    }

    fn content(&self, path: &str) -> Option<Vec<u8>> {
        self.position(path).map(|index| self.files[index].1.clone())
    }

    fn create(&mut self, path: &str) {
        match self.position(path) {
            Some(index) => {
                self.files[index].1.clear();
                self.events
                    .push(FileEvent::new(EventMask::MODIFY.bits(), None));
            }
            None => {
                self.files.push((String::from(path), Vec::new()));
                self.events.push(FileEvent::new(
                    EventMask::CREATE.bits(),
                    Some(Disk::name_of(path)),
                ));
            }
        }
    }

    fn write(&mut self, path: &str, bytes: &[u8]) {
        let index = self.position(path).expect("Error writing to file");
        self.files[index].1.extend_from_slice(bytes);
        self.events
            .push(FileEvent::new(EventMask::MODIFY.bits(), None));
    }

    fn truncate(&mut self, path: &str) {
        let index = self.position(path).expect("Error truncating file");
        self.files[index].1.clear();
        self.events
            .push(FileEvent::new(EventMask::MODIFY.bits(), None));
    }

    fn remove(&mut self, path: &str) {
        let index = self.position(path).expect("Unable to remove test file");
        self.files.remove(index);
        self.events.push(FileEvent::new(
            EventMask::DELETE.bits(),
            Some(Disk::name_of(path)),
        ));
    }

    fn rename(&mut self, path: &str, new_path: &str) {
        let index = self.position(path).expect("Unable to rename test file");
        self.files[index].0 = String::from(new_path);
        self.events.push(FileEvent::new(
            EventMask::MOVED_FROM.bits(),
            Some(Disk::name_of(path)),
        ));
    }

    fn sleep_millis(&mut self, millis: i64) {
        self.now_millis += millis;
    }

    fn date_time(&self) -> String {
        Utc.timestamp_millis_opt(self.now_millis)
            .unwrap()
            .format(DATE_FORMAT_ISO_8601)
            .to_string()
    }
}

/// Makes a watcher as its holder does: the watcher itself, and the file
/// opened where it is there.
fn new_watcher(disk: &Rc<RefCell<Disk>>, path: &str) -> Result<AuthFileWatcher, PathError> {
    let mut watcher = AuthFileWatcher::new(path)?;
    disk.borrow_mut().events.clear();
    if let Some(content) = disk.borrow().content(path) {
        watcher.open_existing_file(content.len() as u64);
    }
    Ok(watcher)
}

/// Does for the watcher what its holder does in one cycle: hands over the
/// queued events, opens the file when asked to, and reads it in small
/// chunks when it was modified.
fn update_watcher(
    watcher: &mut AuthFileWatcher,
    disk: &Rc<RefCell<Disk>>,
    mut parse_line: impl FnMut(&String),
) {
    let events = std::mem::take(&mut disk.borrow_mut().events);
    let path = String::from(watcher.filepath());
    for event in &events {
        if watcher.update(event) == WatcherCommand::OpenFile
            && disk.borrow().content(&path).is_some()
        {
            watcher.open_new_file();
        }
    }
    if !watcher.take_file_modified() {
        return;
    }
    let content = match disk.borrow().content(&path) {
        Some(content) => content,
        None => return,
    };
    loop {
        let start = (watcher.read_position().unwrap() as usize).min(content.len());
        let end = (start + CHUNK_SIZE).min(content.len());
        if start < end {
            for line in watcher.accept(&content[start..end]) {
                parse_line(&String::from_utf8(line).unwrap());
            }
            continue;
        }
        if watcher.end_of_data(content.len() as u64) == ReadStep::Stop {
            break;
        }
    }
}

struct TestFile {
    disk: Rc<RefCell<Disk>>,
    path: String,
}

impl TestFile {
    fn with_unique_name(disk: &Rc<RefCell<Disk>>) -> TestFile {
        let id = disk.borrow().next_id;
        disk.borrow_mut().next_id += 1;
        let path = format!("{}/auth-monitor-test-{}.log", DIRECTORY, id);
        TestFile::new(disk, &path)
    }

    fn new(disk: &Rc<RefCell<Disk>>, path: &str) -> TestFile {
        disk.borrow_mut().create(path);
        TestFile {
            disk: Rc::clone(disk),
            path: String::from(path),
        }
    }

    fn path(&self) -> &str {
        &self.path
    }

    fn create(&mut self) {
        self.disk.borrow_mut().create(&self.path);
    }

    fn write(&mut self, message: &str) {
        self.disk.borrow_mut().write(&self.path, message.as_bytes());
    }

    fn truncate(&mut self) {
        self.disk.borrow_mut().truncate(&self.path);
    }

    fn rename(&mut self, new_path: &str) {
        self.disk.borrow_mut().rename(&self.path, new_path);
        self.path = String::from(new_path);
    }

    fn remove(&mut self) {
        self.disk.borrow_mut().remove(&self.path);
    }

    fn create_log_line(&self, message: &str) -> String {
        format!("{} {}\n", self.disk.borrow().date_time(), message)
    }
}

#[test]
fn when_monitored_file_does_not_exist_then_new_does_not_return_error() {
    let disk = Disk::new();
    let filepath_buffer = std::path::Path::new(DIRECTORY).join("auth-monitor-non-existing-file.log");
    let filepath = filepath_buffer.to_str().expect("Error creating filepath");
    let watcher = new_watcher(&disk, filepath).expect("Error creating AuthFileWatcher");
    assert!(!watcher.is_present());
    assert_eq!(watcher.filepath(), filepath);
    assert_eq!(watcher.directory(), DIRECTORY);
    assert_eq!(watcher.filename(), "auth-monitor-non-existing-file.log");
}

#[test]
fn when_new_line_is_added_to_file_then_update_callback_is_called() {
    let disk = Disk::new();
    let mut file = TestFile::with_unique_name(&disk);
    let mut auth_file_watcher =
        new_watcher(&disk, file.path()).expect("Error creating AuthFileWatcher");
    expect_no_update_callback_call(&mut auth_file_watcher, &disk);
    expect_update_callback_is_called_when_file_is_modified(
        &mut file,
        &mut auth_file_watcher,
        &disk,
    );
}

fn expect_update_callback_is_called_when_file_is_modified(
    file: &mut TestFile,
    auth_file_watcher: &mut AuthFileWatcher,
    disk: &Rc<RefCell<Disk>>,
) {
    let mut call_count = 0;
    for i in 0..10 {
        let message = TEST_MESSAGES[i % TEST_MESSAGES.len()];
        let line_to_add = file.create_log_line(message);
        file.write(&line_to_add);
        update_watcher(auth_file_watcher, disk, |line| {
            call_count += 1;
            assert_eq!(line, &line_to_add);
        });
        assert_eq!(call_count, i + 1, "Callback call was expected");
    }
}

#[test]
fn when_more_than_one_line_is_added_then_update_callback_is_called_for_each_line() {
    let disk = Disk::new();
    let mut file = TestFile::with_unique_name(&disk);
    let mut auth_file_watcher =
        new_watcher(&disk, file.path()).expect("Error creating AuthFileWatcher");
    expect_no_update_callback_call(&mut auth_file_watcher, &disk);

    let mut call_count = 0;
    for i in 0..10 {
        let lines_to_add = TEST_MESSAGES.map(|message| file.create_log_line(message));
        for line in &lines_to_add {
            file.write(line)
        }
        update_watcher(&mut auth_file_watcher, &disk, |line| {
            assert_eq!(line, &lines_to_add[call_count % lines_to_add.len()]);
            call_count += 1;
        });
        assert_eq!(
            call_count,
            (i + 1) * lines_to_add.len(),
            "{} callback calls was expected",
            lines_to_add.len()
        );
    }
}

#[test]
fn when_new_file_was_created_after_old_was_deleted_then_changes_in_new_file_are_monitored() {
    let disk = Disk::new();
    let mut file = TestFile::with_unique_name(&disk);
    let mut auth_file_watcher =
        new_watcher(&disk, file.path()).expect("Error creating AuthFileWatcher");
    expect_no_update_callback_call(&mut auth_file_watcher, &disk);

    file.remove();
    expect_no_update_callback_call(&mut auth_file_watcher, &disk);
    assert!(!auth_file_watcher.is_present());

    file.create();
    expect_no_update_callback_call(&mut auth_file_watcher, &disk);
    assert!(auth_file_watcher.is_present());
    expect_update_callback_is_called_when_file_is_modified(
        &mut file,
        &mut auth_file_watcher,
        &disk,
    );
}

fn expect_no_update_callback_call(
    auth_file_watcher: &mut AuthFileWatcher,
    disk: &Rc<RefCell<Disk>>,
) {
    update_watcher(auth_file_watcher, disk, |_| {
        panic!("Callback call was not expected");
    });
}

#[test]
fn when_new_file_has_been_created_after_old_was_renamed_then_changes_in_new_file_are_monitored() {
    let disk = Disk::new();
    let mut file = TestFile::with_unique_name(&disk);
    let filepath = String::from(file.path());
    let mut auth_file_watcher =
        new_watcher(&disk, &filepath).expect("Error creating AuthFileWatcher");
    expect_no_update_callback_call(&mut auth_file_watcher, &disk);

    let new_filepath = format!("{}.bak", file.path());
    file.rename(&new_filepath);
    expect_no_update_callback_call(&mut auth_file_watcher, &disk);
    assert!(!auth_file_watcher.is_present());

    let mut new_file = TestFile::new(&disk, &filepath);
    expect_no_update_callback_call(&mut auth_file_watcher, &disk);
    expect_update_callback_is_called_when_file_is_modified(
        &mut new_file,
        &mut auth_file_watcher,
        &disk,
    );
}

#[test]
fn when_monitored_file_has_been_truncated_then_changes_are_still_monitored() {
    let disk = Disk::new();
    let mut file = TestFile::with_unique_name(&disk);
    for message in TEST_MESSAGES {
        let line = file.create_log_line(message);
        file.write(&line);
    }
    let mut auth_file_watcher =
        new_watcher(&disk, file.path()).expect("Error creating AuthFileWatcher");
    expect_no_update_callback_call(&mut auth_file_watcher, &disk);

    file.truncate();
    expect_no_update_callback_call(&mut auth_file_watcher, &disk);
    expect_update_callback_is_called_when_file_is_modified(
        &mut file,
        &mut auth_file_watcher,
        &disk,
    );
}

#[test]
fn content_written_before_the_creation_is_seen_is_read_from_the_start() {
    let disk = Disk::new();
    let mut file = TestFile::with_unique_name(&disk);
    let mut auth_file_watcher =
        new_watcher(&disk, file.path()).expect("Error creating AuthFileWatcher");
    file.write("old line\n");
    file.remove();
    file.create();
    file.write("first\nsecond\nthi");
    let mut lines = Vec::new();
    update_watcher(&mut auth_file_watcher, &disk, |line| lines.push(line.clone()));
    assert_eq!(lines, ["first\n", "second\n"]);
    file.write("rd\n");
    let mut lines = Vec::new();
    update_watcher(&mut auth_file_watcher, &disk, |line| lines.push(line.clone()));
    assert_eq!(lines, ["third\n"]);
}

#[test]
fn events_of_other_files_change_nothing() {
    let disk = Disk::new();
    let mut file = TestFile::with_unique_name(&disk);
    let mut auth_file_watcher =
        new_watcher(&disk, file.path()).expect("Error creating AuthFileWatcher");
    let other_path = format!("{}/other.log", DIRECTORY);
    let mut other = TestFile::new(&disk, &other_path);
    other.rename(&format!("{}.bak", other_path));
    other.remove();
    let events = std::mem::take(&mut disk.borrow_mut().events);
    for event in &events {
        assert_eq!(auth_file_watcher.update(event), WatcherCommand::Nothing);
    }
    assert!(auth_file_watcher.is_present());
    assert!(!auth_file_watcher.take_file_modified());
    file.write("line\n");
    let mut call_count = 0;
    update_watcher(&mut auth_file_watcher, &disk, |line| {
        assert_eq!(line, "line\n");
        call_count += 1;
    });
    assert_eq!(call_count, 1);
}

#[test]
fn commands_follow_the_events() {
    let disk = Disk::new();
    let file = TestFile::with_unique_name(&disk);
    let mut watcher = new_watcher(&disk, file.path()).expect("Error creating AuthFileWatcher");
    let name = || Some(String::from(watcher_name(file.path())));
    assert_eq!(
        watcher.update(&FileEvent::new(EventMask::MODIFY.bits(), None)),
        WatcherCommand::Nothing
    );
    assert!(watcher.take_file_modified());
    assert!(!watcher.take_file_modified());
    assert_eq!(
        watcher.update(&FileEvent::new(EventMask::DELETE.bits(), name())),
        WatcherCommand::CloseFile
    );
    assert!(!watcher.is_present());
    assert_eq!(watcher.read_position(), None);
    assert_eq!(
        watcher.update(&FileEvent::new(EventMask::MODIFY.bits(), None)),
        WatcherCommand::Nothing
    );
    assert!(!watcher.take_file_modified());
    assert!(watcher.accept(b"lost\n").is_empty());
    assert_eq!(watcher.end_of_data(0), ReadStep::Stop);
    assert!(watcher.read_new_lines(b"lost\n").is_empty());
    assert_eq!(
        watcher.update(&FileEvent::new(EventMask::CREATE.bits(), name())),
        WatcherCommand::OpenFile
    );
    assert!(!watcher.is_present());
    assert!(!watcher.take_file_modified());
    assert_eq!(
        watcher.update(&FileEvent::new(EventMask::CREATE.bits(), name())),
        WatcherCommand::OpenFile
    );
    watcher.open_new_file();
    assert_eq!(watcher.read_position(), Some(0));
    assert!(watcher.take_file_modified());
    assert_eq!(
        watcher.update(&FileEvent::new(EventMask::MOVED_FROM.bits(), name())),
        WatcherCommand::CloseFile
    );
    assert!(!watcher.is_present());
}

fn watcher_name(path: &str) -> &str {
    path.rsplit('/').next().unwrap()
}

#[test]
fn watcher_is_refused_where_the_directory_is_missing() {
    let disk = Disk::new();
    let error = new_watcher(&disk, "/nonexistent/path/file.log").err().unwrap();
    assert!(matches!(error, PathError::DirectoryNotResolved { .. }));
}
