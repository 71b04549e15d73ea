use std::io::Cursor;

use pylot::utils::SelectError;
use pylot::venvmanager::{DirEntryInfo, ResolveError, VenvManager};

fn entry(name: &str, is_dir: bool, win: bool, unix: bool, unix3: bool) -> DirEntryInfo {
    DirEntryInfo {
        name: name.to_string(),
        path: format!("/srv/venvs/{}", name),
        is_dir,
        has_win_python: win,
        has_unix_python: unix,
        has_unix_python3: unix3,
    }
}

#[test]
fn test_get_index_valid() {
    let cursor = Cursor::new("2\n");
    let index = VenvManager::new().get_index(cursor, 5);
    assert!(index.is_ok());
    assert_eq!(index.unwrap(), 2);
}

#[test]
fn test_get_index_invalid() {
    let cursor = Cursor::new("10\n");
    let index = VenvManager::new().get_index(cursor, 5);
    assert!(index.is_err());
    assert_eq!(index.unwrap_err(), "Index out of range!");
}

#[test]
fn test_get_index_cancel() {
    let cursor = Cursor::new("c\n");
    let index = VenvManager::new().get_index(cursor, 5);
    assert!(index.is_err());
    assert_eq!(index.unwrap_err(), "Cancelled by user");
}

#[test]
fn test_get_index_non_number() {
    let cursor = Cursor::new("abc\n");
    let index = VenvManager::new().get_index(cursor, 5);
    assert!(index.is_err());
    assert_eq!(index.unwrap_err(), "Please provide a valid number!");
}

#[test]
fn list_keeps_only_environments_in_scan_order() {
    let mgr = VenvManager::new();
    let entries = vec![
        entry("alpha", true, false, true, false),
        entry("not-a-venv", true, false, false, false),
        entry("a-file", false, true, true, true),
        entry("beta", true, true, false, false),
        entry("gamma", true, false, false, true),
    ];
    let venvs = mgr.list(&entries);
    let names: Vec<&str> = venvs.iter().map(|v| v.name.as_str()).collect();
    assert_eq!(names, vec!["alpha", "beta", "gamma"]);
    assert_eq!(venvs[0].path, "/srv/venvs/alpha");
    assert_eq!(venvs[0].python_version, "");
    assert!(!venvs[0].default);
}

#[test]
fn list_empty_scan_is_empty() {
    let mgr = VenvManager::new();
    let venvs = mgr.list(&vec![]);
    assert!(venvs.is_empty());
}

#[test]
fn listing_rows_are_one_based() {
    let mgr = VenvManager::new();
    let entries = vec![
        entry("alpha", true, false, true, false),
        entry("beta", true, true, false, false),
    ];
    let venvs = mgr.list(&entries);
    let rows = mgr.listing_rows(&venvs);
    assert_eq!(rows.len(), 2);
    assert_eq!(rows[0].0, 1);
    assert_eq!(rows[0].1, "alpha");
    assert_eq!(rows[1].0, 2);
    assert_eq!(rows[1].1, "beta");
}

#[test]
fn test_find_venv_by_name() {
    let mgr = VenvManager::new();
    let venv = mgr.find_venv(Cursor::new(""), None, Some("test_venv".to_string()), &vec![]);
    assert!(venv.is_ok());
    let venv = venv.unwrap();
    assert_eq!(venv.name, "test_venv");
    assert_eq!(venv.path, "");
    assert_eq!(venv.python_version, "");
    assert!(venv.packages.is_empty());
    assert!(!venv.default);
}

#[test]
fn list_report_tells_unreadable_from_empty() {
    let mgr = VenvManager::new();
    let unreadable = mgr.list_report(None);
    assert_eq!(unreadable.unwrap_err(), "Error reading environments directory");

    let empty_root: Vec<DirEntryInfo> = Vec::new();
    let report = mgr.list_report(Some(&empty_root)).unwrap();
    assert!(report.is_empty());

    let one = vec![entry("alpha", true, false, true, false)];
    let report = mgr.list_report(Some(&one)).unwrap();
    assert_eq!(report.len(), 1);
    assert_eq!(report[0].name, "alpha");
}

#[test]
fn test_find_venv_by_name_pos() {
    let mgr = VenvManager::new();
    let venv = mgr.find_venv(Cursor::new(""), Some("test_venv".to_string()), None, &vec![]);
    assert!(venv.is_ok());
    assert_eq!(venv.unwrap().name, "test_venv");
}

#[test]
fn find_venv_flag_beats_positional() {
    let mgr = VenvManager::new();
    let venv = mgr
        .find_venv(
            Cursor::new(""),
            Some("positional".to_string()),
            Some("flagged".to_string()),
            &vec![],
        )
        .unwrap();
    assert_eq!(venv.name, "flagged");
}

#[test]
fn find_venv_empty_listing_fails() {
    let mgr = VenvManager::new();
    let venv = mgr.find_venv(Cursor::new("1\n"), None, None, &vec![]);
    assert!(matches!(venv, Err(ResolveError::NoEnvironments)));
}

#[test]
fn find_venv_selects_by_index() {
    let mgr = VenvManager::new();
    let entries = vec![
        entry("alpha", true, false, true, false),
        entry("beta", true, true, false, false),
        entry("gamma", true, false, false, true),
    ];
    let venvs = mgr.list(&entries);
    let picked = mgr.find_venv(Cursor::new("2\n"), None, None, &venvs).unwrap();
    assert_eq!(picked.name, "beta");

    let out_of_range = mgr.find_venv(Cursor::new("9\n"), None, None, &venvs);
    assert!(matches!(
        out_of_range,
        Err(ResolveError::Selection(SelectError::OutOfRange))
    ));

    let cancelled = mgr.find_venv(Cursor::new("c\n"), None, None, &venvs);
    assert!(matches!(
        cancelled,
        Err(ResolveError::Selection(SelectError::Cancelled))
    ));

    let non_numeric = mgr.find_venv(Cursor::new("abc\n"), None, None, &venvs);
    assert!(matches!(
        non_numeric,
        Err(ResolveError::Selection(SelectError::NotANumber))
    ));
}

#[test]
fn resolve_error_messages() {
    assert_eq!(
        ResolveError::NoEnvironments.message(),
        "No virtual environments found"
    );
    assert_eq!(
        ResolveError::Selection(SelectError::Cancelled).message(),
        "Cancelled by user"
    );
}

#[test]
fn venv_path_expands_the_root() {
    let mgr = VenvManager::new();
    let path = mgr.venv_path("demo");
    assert!(path.ends_with("/pylot/venvs/demo"));
    assert!(!path.starts_with('~'));

    let fixed = VenvManager::with_settings(pylot::settings::Settings::new(
        "/srv/venvs".to_string(),
        vec![],
    ));
    assert_eq!(fixed.venv_path("demo"), "/srv/venvs/demo");
}

#[test]
fn lifecycle_round_trip_on_the_registry_model() {
    // Creating "demo" with one package on a machine where the external
    // tool is present passes every check, and its one install step
    // succeeding makes the whole create succeed.
    assert!(pylot::create_checks("demo", true, false).is_ok());
    let venv = pylot::venv::Venv::new(
        "demo".to_string(),
        "".to_string(),
        "3.10".to_string(),
        vec!["numpy".to_string()],
        false,
    );
    assert_eq!(venv.install_packages(), vec!["numpy"]);
    let status = pylot::venv::create_outcome(true, true, true);
    assert_eq!(status, pylot::venv::CreateStatus::Succeeded);
    assert!(!pylot::venv::rollback_required(status));

    // A scan that shows "demo" right after the successful create, and no
    // longer shows it after a successful delete.
    let mgr = VenvManager::new();

    let after_create = vec![entry("demo", true, false, true, true)];
    let venvs = mgr.list(&after_create);
    assert!(venvs.iter().any(|v| v.name == "demo"));

    let after_delete: Vec<DirEntryInfo> = vec![];
    let venvs = mgr.list(&after_delete);
    assert!(!venvs.iter().any(|v| v.name == "demo"));

    // Activate after the delete fails with the non-existence message,
    // and deleting a non-existent name refuses to touch anything.
    let activation = pylot::venv::activate_decision(false);
    assert_eq!(activation.unwrap_err(), "Virtual environment does not exist");
    assert_eq!(
        pylot::venv::delete_decision(false, true, None),
        pylot::venv::DeleteAction::RejectMissing
    );
}
