use std::sync::Mutex;

use pylot::settings::Settings;

#[test]
fn test_default_venv_path() {
    let settings = Settings::default();
    assert_eq!(settings.venvs_path, "~/pylot/venvs");
}

#[test]
fn test_get_settings() {
    let settings = Settings::new("~/pylot/venvs".to_string(), vec![]);
    let settings_lock = Mutex::new(settings);
    let settings = settings_lock.lock().unwrap();
    assert_eq!(settings.venvs_path, "~/pylot/venvs");
}

#[test]
fn test_default_pkgs() {
    let settings = Settings::default();
    let empty_vec: Vec<String> = Vec::new();
    assert_eq!(settings.default_pkgs, empty_vec);
}

#[test]
fn settings_duplicate_keeps_fields() {
    let settings = Settings::new(
        "/srv/venvs".to_string(),
        vec!["numpy".to_string(), "pandas".to_string()],
    );
    let copy = settings.duplicate();
    assert_eq!(copy.venvs_path, "/srv/venvs");
    assert_eq!(copy.default_pkgs, vec!["numpy", "pandas"]);
}

#[test]
fn settings_get_settings_defaults() {
    let settings = Settings::get_settings();
    assert_eq!(settings.venvs_path, "~/pylot/venvs");
    assert!(settings.default_pkgs.is_empty());
}
