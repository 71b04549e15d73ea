use pylot::tui::{App, CurrentEnvironment, CurrentScreen};

#[test]
fn app_starts_clean() {
    let app = App::new();
    assert_eq!(app.key_input, "");
    assert_eq!(app.value_input, "");
    assert!(app.pairs.is_empty());
    assert_eq!(app.current_screen, CurrentScreen::Main);
    assert!(app.current_environment.is_none());
}

#[test]
fn save_key_value_stores_and_clears() {
    let mut app = App::new();
    app.key_input = "PATH".to_string();
    app.value_input = "/usr/bin".to_string();
    app.current_environment = Some(CurrentEnvironment::Value);
    app.save_key_value();
    assert_eq!(
        app.pairs,
        vec![("PATH".to_string(), "/usr/bin".to_string())]
    );
    assert_eq!(app.key_input, "");
    assert_eq!(app.value_input, "");
    assert!(app.current_environment.is_none());
}

#[test]
fn save_key_value_replaces_existing_key() {
    let mut app = App::new();
    app.key_input = "A".to_string();
    app.value_input = "1".to_string();
    app.save_key_value();
    app.key_input = "B".to_string();
    app.value_input = "2".to_string();
    app.save_key_value();
    app.key_input = "A".to_string();
    app.value_input = "3".to_string();
    app.save_key_value();
    assert_eq!(
        app.pairs,
        vec![
            ("A".to_string(), "3".to_string()),
            ("B".to_string(), "2".to_string())
        ]
    );
}

#[test]
fn toggle_environment_cycles_focus() {
    let mut app = App::new();
    app.toggle_environment();
    assert_eq!(app.current_environment, Some(CurrentEnvironment::Key));
    app.toggle_environment();
    assert_eq!(app.current_environment, Some(CurrentEnvironment::Value));
    app.toggle_environment();
    assert_eq!(app.current_environment, Some(CurrentEnvironment::Key));
}

#[test]
fn status_message_round_trip() {
    let mut app = App::new();
    assert_eq!(app.get_status_message(), "Running");
    app.set_status_message("Stopped");
    assert_eq!(app.get_status_message(), "Stopped");
}

#[test]
fn environment_lines_render_pairs() {
    let mut app = App::new();
    app.key_input = "A".to_string();
    app.value_input = "1".to_string();
    app.save_key_value();
    app.key_input = "B".to_string();
    app.value_input = "2".to_string();
    app.save_key_value();
    assert_eq!(app.environment_lines(), vec!["A=1", "B=2"]);
}
