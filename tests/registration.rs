use git_tempfile::{at_path, cleanup_tempfiles, new, try_at_path, Registry, SignalHandlerMode};
use std::path::Path;

type TestResult = Result<(), Box<dyn std::error::Error>>;

fn filecount_in(path: impl AsRef<Path>) -> usize {
    path.as_ref().read_dir().expect("valid dir").count()
}

fn dir_str(dir: &tempfile::TempDir) -> String {
    dir.path().to_str().expect("utf-8 temp dir").to_owned()
}

#[test]
fn various_termination_signals_remove_tempfiles_unconditionally() -> TestResult {
    let dir = tempfile::tempdir()?;
    let mut registry = Registry::new();
    let mode = SignalHandlerMode::HandleTermination;
    for _sig in signal_hook::consts::TERM_SIGNALS {
        let _tempfile = new(&mut registry, &dir_str(&dir))?;
        assert_eq!(
            filecount_in(dir.path()),
            1,
            "only one tempfile exists no matter the iteration"
        );
        cleanup_tempfiles(&mut registry);
        assert!(!mode.restores_default());
        assert_eq!(
            filecount_in(dir.path()),
            0,
            "the signal triggers removal but won't terminate the process (anymore)"
        );
    }
    Ok(())
}

#[test]
fn it_names_files_correctly_and_removes_them_when_out_of_scope() -> TestResult {
    let dir = tempfile::tempdir()?;
    let mut registry = Registry::new();
    let filename = dir.path().join("something-specific.ext");
    let tempfile = at_path(&mut registry, filename.to_str().expect("utf-8"))?;
    assert!(filename.is_file(), "specified file should exist precisely");
    assert!(tempfile.remove(&mut registry));
    assert!(!filename.is_file(), "after drop named files are deleted as well");
    Ok(())
}

#[test]
fn it_can_be_kept() -> TestResult {
    let dir = tempfile::tempdir()?;
    let mut registry = Registry::new();
    drop(
        new(&mut registry, &dir_str(&dir))?
            .take(&mut registry)
            .expect("not taken yet")
            .keep()?,
    );
    assert_eq!(filecount_in(&dir), 1, "a temp file and persisted");
    Ok(())
}

#[test]
fn it_is_removed_if_it_goes_out_of_scope() -> TestResult {
    let dir = tempfile::tempdir()?;
    let mut registry = Registry::new();
    {
        let keep = new(&mut registry, &dir_str(&dir))?;
        assert_eq!(filecount_in(&dir), 1, "a temp file was created");
        keep.remove(&mut registry);
    }
    assert_eq!(filecount_in(&dir), 0, "tempfile was automatically removed");
    Ok(())
}

#[test]
fn live_registrations_match_files_on_disk() -> TestResult {
    let dir = tempfile::tempdir()?;
    let mut registry = Registry::new();
    let mut live = Vec::new();
    for n in 0..5usize {
        assert_eq!(filecount_in(&dir), n);
        assert_eq!(registry.len(), n);
        live.push(new(&mut registry, &dir_str(&dir))?);
    }
    assert_eq!(filecount_in(&dir), 5);
    while let Some(registration) = live.pop() {
        let before = filecount_in(&dir);
        assert!(registration.remove(&mut registry));
        assert_eq!(filecount_in(&dir), before - 1);
        assert_eq!(registry.len(), before - 1);
    }
    assert_eq!(filecount_in(&dir), 0);
    Ok(())
}

#[test]
fn taken_file_is_deleted_by_its_new_owner() -> TestResult {
    let dir = tempfile::tempdir()?;
    let mut registry = Registry::new();
    let file = new(&mut registry, &dir_str(&dir))?
        .take(&mut registry)
        .expect("not taken yet");
    assert_eq!(registry.len(), 0);
    cleanup_tempfiles(&mut registry);
    assert_eq!(filecount_in(&dir), 1, "a sweep leaves a taken file alone");
    assert!(Path::new(&file.path()).is_file());
    drop(file);
    assert_eq!(filecount_in(&dir), 0);
    Ok(())
}

#[test]
fn take_and_remove_after_a_sweep_find_nothing() -> TestResult {
    let dir = tempfile::tempdir()?;
    let mut registry = Registry::new();
    let first = new(&mut registry, &dir_str(&dir))?;
    let second = new(&mut registry, &dir_str(&dir))?;
    assert_eq!(filecount_in(&dir), 2);
    cleanup_tempfiles(&mut registry);
    assert_eq!(filecount_in(&dir), 0);
    assert!(first.take(&mut registry).is_none());
    assert!(!second.remove(&mut registry));
    assert_eq!(registry.len(), 0);
    Ok(())
}

#[test]
fn identifiers_strictly_increase_across_cycles() -> TestResult {
    let dir = tempfile::tempdir()?;
    let mut registry = Registry::new();
    let mut last: Option<usize> = None;
    for _ in 0..10 {
        let registration = new(&mut registry, &dir_str(&dir))?;
        let id = registration.identifier();
        if let Some(previous) = last {
            assert!(id > previous);
        }
        last = Some(id);
        registration.remove(&mut registry);
    }
    assert_eq!(last, Some(9));
    Ok(())
}

#[test]
fn failed_creation_uses_up_an_identifier() {
    let dir = tempfile::tempdir().expect("temp dir");
    let missing = dir.path().join("missing");
    let mut registry = Registry::new();
    assert!(new(&mut registry, missing.to_str().expect("utf-8")).is_err());
    let path = missing.join("name.ext");
    assert!(at_path(&mut registry, path.to_str().expect("utf-8")).is_err());
    assert_eq!(registry.len(), 0);
    let registration = new(&mut registry, &dir_str(&dir)).expect("created");
    assert_eq!(registration.identifier(), 2);
}

#[test]
fn at_path_without_a_parent_creates_nothing() {
    let mut registry = Registry::new();
    assert!(try_at_path(&mut registry, "").is_none());
    assert!(try_at_path(&mut registry, "/").is_none());
    assert_eq!(registry.len(), 0);
    assert!(registry.can_issue());
}

#[test]
fn try_at_path_creates_the_named_file() -> TestResult {
    let dir = tempfile::tempdir()?;
    let mut registry = Registry::new();
    let filename = dir.path().join("index.lock");
    let registration = try_at_path(&mut registry, filename.to_str().expect("utf-8"))
        .expect("has a parent")?;
    assert!(filename.is_file());
    assert_eq!(filecount_in(&dir), 1);
    assert!(registration.remove(&mut registry));
    assert!(!filename.is_file());
    Ok(())
}

#[test]
fn at_path_tracks_the_file_at_the_requested_path() -> TestResult {
    let dir = tempfile::tempdir()?;
    let mut registry = Registry::new();
    let filename = dir.path().join("HEAD.lock");
    let requested = filename.to_str().expect("utf-8").to_owned();
    let file = at_path(&mut registry, &requested)?
        .take(&mut registry)
        .expect("not taken yet");
    assert_eq!(file.path(), requested);
    assert!(filename.is_file());
    drop(file);
    assert!(!filename.is_file());
    Ok(())
}

#[test]
fn removing_one_entry_leaves_the_others_on_disk() -> TestResult {
    let dir = tempfile::tempdir()?;
    let mut registry = Registry::new();
    let first = at_path(&mut registry, dir.path().join("first").to_str().expect("utf-8"))?;
    let second = at_path(&mut registry, dir.path().join("second").to_str().expect("utf-8"))?;
    let third = new(&mut registry, &dir_str(&dir))?;
    assert_eq!(filecount_in(&dir), 3);
    assert!(second.remove(&mut registry));
    assert_eq!(filecount_in(&dir), 2);
    assert!(dir.path().join("first").is_file());
    assert!(!dir.path().join("second").is_file());
    let kept = third.take(&mut registry).expect("still tracked");
    assert!(Path::new(&kept.path()).is_file());
    assert!(first.remove(&mut registry));
    assert_eq!(filecount_in(&dir), 1);
    Ok(())
}

#[test]
fn at_path_refuses_an_existing_file() -> TestResult {
    let dir = tempfile::tempdir()?;
    let mut registry = Registry::new();
    let filename = dir.path().join("index.lock");
    let held = at_path(&mut registry, filename.to_str().expect("utf-8"))?;
    assert!(at_path(&mut registry, filename.to_str().expect("utf-8")).is_err());
    assert_eq!(registry.len(), 1);
    assert!(filename.is_file());
    assert!(held.remove(&mut registry));
    assert!(!filename.is_file());
    Ok(())
}
