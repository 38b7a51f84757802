use templay::config::{Config, ConfigExternalEditor};
use templay::executor::{build_command, classify_outcome, ExecutorInfo, LaunchError,
    LaunchStrategy, ProcessResult, SpawnOutcome};
use templay::scratch::{FileStat, ReadError, ScratchSlot, WriteTarget};
use templay::session::{launch_request, ConfigurationError, TemplayState};

fn state_with_editor(command: &str, args: &str) -> TemplayState {
    let mut state = TemplayState::new();
    let mut config = Config::default();
    config.external_editor = Some(ConfigExternalEditor {
        name: "stub".to_string(),
        command: command.to_string(),
        args: args.to_string(),
    });
    state.set_config(config);
    state
}

/// A stand-in for the host's filesystem: named files with content and the
/// timestamps the read-back check compares.
struct FakeDisk {
    files: Vec<(String, String, FileStat)>,
}

impl FakeDisk {
    fn new() -> Self {
        FakeDisk { files: Vec::new() }
    }

    fn create(&mut self, path: &str, content: &str) {
        self.files.push((
            path.to_string(),
            content.to_string(),
            FileStat { created: 100, modified: 100 },
        ));
    }

    fn truncate_rewrite(&mut self, path: &str, content: &str) {
        for f in self.files.iter_mut() {
            if f.0 == path {
                f.1 = content.to_string();
            }
        }
    }

    fn externally_edit(&mut self, path: &str, content: &str) {
        for f in self.files.iter_mut() {
            if f.0 == path {
                f.1 = content.to_string();
                f.2.modified = f.2.created + 50;
            }
        }
    }

    fn remove(&mut self, path: &str) {
        self.files.retain(|f| f.0 != path);
    }

    fn stat(&self, path: &str) -> Option<FileStat> {
        self.files.iter().find(|f| f.0 == path).map(|f| f.2)
    }

    fn read(&self, path: &str) -> Option<String> {
        self.files.iter().find(|f| f.0 == path).map(|f| f.1.clone())
    }
}

/// Carry out a write target against the fake disk, the way the host would,
/// and return the path written.
fn perform_write(slot: &mut ScratchSlot, disk: &mut FakeDisk, text: &str) -> String {
    match slot.open_for_edit() {
        WriteTarget::NewFile => {
            let path = "/tmp/templay.0.txt".to_string();
            disk.create(&path, text);
            slot.record_file(path.clone());
            path
        }
        WriteTarget::Existing(path) => {
            disk.truncate_rewrite(&path, text);
            path
        }
    }
}

#[test]
fn open_for_edit_twice_reuses_one_file() {
    let mut slot = ScratchSlot::new();
    let mut disk = FakeDisk::new();
    let p1 = perform_write(&mut slot, &mut disk, "first text");
    let p2 = perform_write(&mut slot, &mut disk, "second text");
    assert_eq!(p1, p2);
    assert_eq!(disk.files.len(), 1);
    assert_eq!(disk.read(&p1), Some("second text".to_string()));
    assert!(!disk.files[0].1.contains("first"));
}

#[test]
fn read_back_right_after_open_is_unmodified() {
    let mut slot = ScratchSlot::new();
    let mut disk = FakeDisk::new();
    let path = perform_write(&mut slot, &mut disk, "hello");
    let r = slot.read_back(&disk.stat(&path), disk.read(&path));
    assert_eq!(r, Err(ReadError::Unmodified));
}

#[test]
fn read_back_without_active_file() {
    let slot = ScratchSlot::new();
    let r = slot.read_back(&None, None);
    assert_eq!(r, Err(ReadError::NoActiveFile));
}

#[test]
fn read_back_io_failure_when_metadata_is_gone() {
    let mut slot = ScratchSlot::new();
    slot.record_file("/tmp/templay.gone.txt".to_string());
    let r = slot.read_back(&None, None);
    assert_eq!(r, Err(ReadError::IoFailure));
}

#[test]
fn read_back_io_failure_when_content_is_unreadable() {
    let mut slot = ScratchSlot::new();
    slot.record_file("/tmp/templay.x.txt".to_string());
    let stat = Some(FileStat { created: 100, modified: 200 });
    let r = slot.read_back(&stat, None);
    assert_eq!(r, Err(ReadError::IoFailure));
}

#[test]
fn close_twice_removes_the_file_exactly_once() {
    let mut slot = ScratchSlot::new();
    let mut disk = FakeDisk::new();
    let path = perform_write(&mut slot, &mut disk, "bye");
    let mut removals: usize = 0;
    if let Some(p) = slot.close() {
        disk.remove(&p);
        removals += 1;
    }
    if let Some(p) = slot.close() {
        disk.remove(&p);
        removals += 1;
    }
    assert_eq!(removals, 1);
    assert!(disk.files.is_empty());
    assert!(!slot.is_active());
    assert_eq!(disk.stat(&path), None);
}

#[test]
fn close_on_empty_slot_is_a_no_op() {
    let mut slot = ScratchSlot::new();
    assert_eq!(slot.close(), None);
    assert!(!slot.is_active());
}

#[test]
fn end_to_end_round_trip() {
    let state0 = state_with_editor("stub_editor", "{FilePath}");
    let mut slot = ScratchSlot::new();
    let mut disk = FakeDisk::new();

    let request = state0.begin_external_edit("hello".to_string()).ok().unwrap();
    assert_eq!(request.editor.command, "stub_editor");
    assert_eq!(request.text, "hello");
    assert!(matches!(request.target, WriteTarget::NewFile));

    let path = perform_write(&mut slot, &mut disk, &request.text);
    assert_eq!(disk.read(&path), Some("hello".to_string()));

    let info = launch_request(&request.editor, path.clone());
    assert_eq!(info.get_path(), "stub_editor");
    assert_eq!(info.get_args(), &vec![path.clone()]);

    disk.externally_edit(&path, "hello world");
    let r = slot.read_back(&disk.stat(&path), disk.read(&path));
    assert_eq!(r, Ok("hello world".to_string()));

    // the scratch file stays in place for further edits in this session
    assert!(slot.is_active());
    assert_eq!(disk.files.len(), 1);
}

#[test]
fn no_editor_configured_returns_text_unchanged() {
    let state = TemplayState::new();
    let refusal = state.begin_external_edit("draft text".to_string()).err().unwrap();
    assert_eq!(refusal.error, ConfigurationError::NoEditorConfigured);
    assert_eq!(refusal.text, "draft text");
}

#[test]
fn missing_executable_is_not_found_never_success() {
    let r = classify_outcome(&SpawnOutcome::ExecutableNotFound);
    assert_eq!(r, Err(LaunchError::NotFound));
}

#[test]
fn spawn_outcomes_classified() {
    assert_eq!(
        classify_outcome(&SpawnOutcome::Exited(0)),
        Ok(ProcessResult { exit_code: Some(0), signaled: false })
    );
    assert_eq!(
        classify_outcome(&SpawnOutcome::Exited(3)),
        Ok(ProcessResult { exit_code: Some(3), signaled: false })
    );
    assert_eq!(classify_outcome(&SpawnOutcome::EndedBySignal), Err(LaunchError::Signaled));
    assert_eq!(classify_outcome(&SpawnOutcome::SpawnFailure), Err(LaunchError::SpawnFailed));
    assert_eq!(
        classify_outcome(&SpawnOutcome::Detached),
        Ok(ProcessResult { exit_code: None, signaled: false })
    );
}

#[test]
fn direct_strategy_keeps_the_command_line() {
    let info = ExecutorInfo::new("vim".to_string(), vec!["a".to_string(), "b".to_string()]);
    let full = build_command(&LaunchStrategy::Direct, info);
    assert_eq!(full.get_path(), "vim");
    assert_eq!(full.get_args(), &vec!["a".to_string(), "b".to_string()]);
}

#[test]
fn shell_open_strategy_prepends_opener_and_flags() {
    let info = ExecutorInfo::new("MyEditor".to_string(), vec!["f.txt".to_string()]);
    let strategy = LaunchStrategy::ShellOpen {
        opener: "open".to_string(),
        flags: vec!["-a".to_string()],
    };
    let full = build_command(&strategy, info);
    assert_eq!(full.get_path(), "open");
    assert_eq!(
        full.get_args(),
        &vec!["-a".to_string(), "MyEditor".to_string(), "f.txt".to_string()]
    );
}

#[test]
fn default_config_has_no_editor() {
    let config = Config::default();
    assert_eq!(config.version, 0);
    assert!(config.external_editor.is_none());
    assert!(config.templates.is_empty());
}

#[test]
fn fresh_state_is_empty() {
    let state = TemplayState::new();
    assert!(state.config.external_editor.is_none());
    assert!(!state.scratch.is_active());
    assert_eq!(state.scratch.current_path(), None);
}

#[test]
fn session_poll_and_shutdown_round_trip() {
    let mut state = state_with_editor("stub_editor", "{FilePath}");
    let mut disk = FakeDisk::new();

    let request = state.begin_external_edit("hello".to_string()).ok().unwrap();
    assert!(matches!(request.target, WriteTarget::NewFile));
    let path = "/tmp/templay.1.txt".to_string();
    disk.create(&path, &request.text);
    state.record_scratch_file(path.clone());

    // nothing saved yet: not ready, retry later
    let r = state.poll_scratch_file(&disk.stat(&path), disk.read(&path));
    assert_eq!(r, Err(ReadError::Unmodified));

    disk.externally_edit(&path, "hello world");
    let r = state.poll_scratch_file(&disk.stat(&path), disk.read(&path));
    assert_eq!(r, Ok("hello world".to_string()));

    // shutdown hands out the one path to delete; a second hands out nothing
    assert_eq!(state.shutdown(), Some(path.clone()));
    disk.remove(&path);
    assert_eq!(state.shutdown(), None);
    assert!(disk.files.is_empty());
}

#[test]
fn poll_without_session_reports_no_active_file() {
    let state = TemplayState::new();
    let r = state.poll_scratch_file(&None, None);
    assert_eq!(r, Err(ReadError::NoActiveFile));
}

#[test]
fn current_path_reports_recorded_file() {
    let mut slot = ScratchSlot::new();
    slot.record_file("/tmp/templay.7.txt".to_string());
    assert_eq!(slot.current_path(), Some("/tmp/templay.7.txt"));
    assert!(slot.is_active());
}
