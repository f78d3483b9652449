use longtime::config::{Config, TimezoneConfig, WorkHours};
use longtime::session::{App, AppState, Key};

fn entry(name: &str, tz: &str) -> TimezoneConfig {
    TimezoneConfig {
        name: name.to_string(),
        timezone: tz.to_string(),
        work_hours: WorkHours {
            start: "09:00".to_string(),
            end: "17:00".to_string(),
        },
    }
}

fn create_test_config() -> Config {
    Config {
        timezones: vec![entry("Test1", "UTC"), entry("Test2", "UTC")],
        use_12h_format: false,
    }
}

#[test]
fn test_app_initialization() {
    let config = create_test_config();
    let app = App::new(config);
    assert_eq!(app.selected, 0);
    assert_eq!(app.time_offset, 0);
    assert!(!app.show_help);
    assert!(app.search_query.is_empty());
    assert!(!app.is_searching);
    assert!(!app.use_12h_format);
}

#[test]
fn app_test_app_initialization() {
    let config = create_test_config();
    let app = App::new(config);
    assert_eq!(app.selected, 0);
    assert_eq!(app.time_offset, 0);
    assert_eq!(app.timezone_count(), 2);
}

#[test]
fn test_navigation() {
    let config = create_test_config();
    let mut app = App::new(config);
    assert_eq!(app.selected, 0);
    app.next();
    assert_eq!(app.selected, 1);
    app.next();
    assert_eq!(app.selected, 0);
    app.previous();
    assert_eq!(app.selected, 1);
}

#[test]
fn app_test_navigation() {
    let config = create_test_config();
    let mut app = App::new(config);
    app.next();
    assert_eq!(app.selected, 1);
    app.next();
    assert_eq!(app.selected, 0);
    app.previous();
    assert_eq!(app.selected, 1);
}

#[test]
fn test_time_adjustment() {
    let config = create_test_config();
    let mut app = App::new(config);
    app.adjust_time_forward(30);
    assert_eq!(app.time_offset, 30 * 60);
    app.adjust_time_backward(15);
    assert_eq!(app.time_offset, 15 * 60);
    app.reset_time();
    assert_eq!(app.time_offset, 0);
}

#[test]
fn app_test_time_adjustment() {
    let config = create_test_config();
    let mut app = App::new(config);
    app.adjust_time_forward(60);
    assert_eq!(app.time_offset, 60 * 60);
    app.adjust_time_backward(30);
    assert_eq!(app.time_offset, 30 * 60);
    app.reset_time();
    assert_eq!(app.time_offset, 0);
}

#[test]
fn test_search() {
    let config = create_test_config();
    let mut app = App::new(config);
    app.enter_search();
    assert!(app.is_searching);
    app.append_search('T');
    app.append_search('e');
    assert_eq!(app.search_query, "Te");
    app.backspace_search();
    assert_eq!(app.search_query, "T");
    app.exit_search();
    assert!(!app.is_searching);
    app.clear_search();
    assert!(app.search_query.is_empty());
}

#[test]
fn app_test_search() {
    let config = create_test_config();
    let mut app = App::new(config);
    app.enter_search();
    assert!(app.is_searching);
    app.append_search('T');
    app.append_search('e');
    app.append_search('s');
    app.append_search('t');
    app.append_search('1');
    assert_eq!(app.search_query, "Test1");
    assert_eq!(app.timezone_count(), 1);
    app.backspace_search();
    assert_eq!(app.search_query, "Test");
    assert_eq!(app.timezone_count(), 2);
    app.clear_search();
    assert_eq!(app.search_query, "");
    assert_eq!(app.timezone_count(), 2);
}

#[test]
fn search_is_case_insensitive_over_name_and_zone() {
    let mut app = App::new(Config::default());
    app.set_search("SHANG".to_string());
    let shown = app.get_filtered_timezones();
    assert_eq!(shown.len(), 1);
    assert_eq!(shown[0].0, 0);
    assert_eq!(shown[0].1.name, "Shanghai");
    app.set_search("america".to_string());
    let shown = app.get_filtered_timezones();
    assert_eq!(shown.len(), 1);
    assert_eq!(shown[0].0, 2);
    app.set_search("o".to_string());
    let idx: Vec<usize> = app.get_filtered_timezones().iter().map(|p| p.0).collect();
    assert_eq!(idx, vec![1, 2]);
    app.set_search("zzz".to_string());
    assert_eq!(app.timezone_count(), 0);
    app.next();
    app.previous();
    assert_eq!(app.selected, 0);
}

#[test]
fn backspace_on_empty_search_keeps_it_empty() {
    let mut app = App::new(create_test_config());
    app.backspace_search();
    assert_eq!(app.search_query, "");
    assert_eq!(app.selected, 0);
}

#[test]
fn navigation_wraps_after_n_steps() {
    let mut app = App::new(Config::default());
    for start in 0..3 {
        app.selected = start;
        for _ in 0..3 {
            app.next();
        }
        assert_eq!(app.selected, start);
    }
    app.selected = 0;
    app.previous();
    assert_eq!(app.selected, 2);
}

#[test]
fn filtering_resets_selection() {
    let mut app = App::new(Config::default());
    app.next();
    app.next();
    assert_eq!(app.selected, 2);
    app.append_search('o');
    assert_eq!(app.selected, 0);
    app.next();
    app.backspace_search();
    assert_eq!(app.selected, 0);
    app.next();
    app.set_search("new".to_string());
    assert_eq!(app.selected, 0);
    app.next();
    app.clear_search();
    assert_eq!(app.selected, 0);
}

#[test]
fn offset_adjustments_add_up() {
    let mut a = App::new(create_test_config());
    a.adjust_time_forward(30);
    a.adjust_time_forward(-10);
    let mut b = App::new(create_test_config());
    b.adjust_time_forward(20);
    assert_eq!(a.time_offset, b.time_offset);
    assert_eq!(a.time_offset, 20 * 60);
    let mut s = AppState::new(create_test_config(), true);
    s.adjust_time(30);
    s.adjust_time(-10);
    assert_eq!(s.time_offset, 20 * 60);
}

#[test]
fn simulated_instant_adds_offset() {
    let mut app = App::new(create_test_config());
    app.adjust_time_forward(90);
    assert_eq!(app.current_time(1_000), Some(1_000 + 5400));
    assert_eq!(app.current_time(i64::MAX), None);
    let mut s = AppState::new(create_test_config(), false);
    s.adjust_time(-1);
    assert_eq!(s.current_time(0), Some(-60));
}

#[test]
fn toggles_flip() {
    let mut app = App::new(create_test_config());
    app.toggle_help();
    assert!(app.show_help);
    app.enter_search();
    assert!(!app.show_help);
    app.toggle_format();
    assert!(app.use_12h_format);
    let mut s = AppState::new(create_test_config(), true);
    s.toggle_running();
    assert!(!s.is_running);
    s.toggle_theme();
    assert!(!s.dark_mode);
    s.toggle_format();
    assert!(s.config.use_12h_format);
}

#[test]
fn reference_offset_follows_selection() {
    let mut app = App::new(Config::default());
    let now = 1_685_620_800; // 2023-06-01T12:00:00Z
    assert_eq!(app.reference_offset(now), 8 * 3600);
    app.next();
    assert_eq!(app.reference_offset(now), 3600);
    app.set_search("york".to_string());
    assert_eq!(app.reference_offset(now), -4 * 3600);
    app.set_search("nothing".to_string());
    assert_eq!(app.reference_offset(now), 0);

    let mut s = AppState::new(Config::default(), true);
    s.select(2);
    assert_eq!(s.reference_offset(now), -4 * 3600);
    s.select(7);
    assert_eq!(s.reference_offset(now), 0);
}

#[test]
fn delete_out_of_range_is_ignored() {
    let mut s = AppState::new(Config::default(), true);
    let before = s.config.clone();
    s.delete_timezone(3);
    assert_eq!(s.config, before);
    s.delete_timezone(1);
    assert_eq!(s.config.timezones.len(), 2);
    assert_eq!(s.config.timezones[1].name, "New York");
}

#[test]
fn dialog_adds_or_edits() {
    let mut s = AppState::new(Config::default(), true);
    s.open_add_modal();
    assert!(s.show_config_modal);
    assert_eq!(s.editing_index, None);
    s.submit_timezone(entry("Tokyo", "Asia/Tokyo"));
    assert!(!s.show_config_modal);
    assert_eq!(s.config.timezones.len(), 4);
    assert_eq!(s.config.timezones[3].name, "Tokyo");

    s.open_edit_modal(0);
    assert_eq!(s.editing_index, Some(0));
    s.submit_timezone(entry("Beijing", "Asia/Shanghai"));
    assert_eq!(s.config.timezones[0].name, "Beijing");
    assert_eq!(s.config.timezones.len(), 4);

    let before = s.config.clone();
    s.open_edit_modal(9);
    s.submit_timezone(entry("Nowhere", "UTC"));
    assert_eq!(s.config, before);
    assert_eq!(s.editing_index, None);

    s.open_edit_modal(1);
    s.close_modal();
    assert!(!s.show_config_modal);
    assert_eq!(s.editing_index, None);
}

#[test]
fn terminal_keys() {
    let mut app = App::new(Config::default());
    assert!(!app.handle_key(Key::Down));
    assert_eq!(app.selected, 1);
    assert!(!app.handle_key(Key::Up));
    assert!(!app.handle_key(Key::Up));
    assert_eq!(app.selected, 2);
    assert!(!app.handle_key(Key::Right));
    assert_eq!(app.time_offset, 15 * 60);
    assert!(!app.handle_key(Key::Left));
    assert!(!app.handle_key(Key::Left));
    assert_eq!(app.time_offset, -15 * 60);
    assert!(!app.handle_key(Key::Char('r')));
    assert_eq!(app.time_offset, 0);
    assert!(!app.handle_key(Key::Char('t')));
    assert!(app.use_12h_format);
    assert!(!app.handle_key(Key::Char('?')));
    assert!(app.show_help);
    assert!(!app.handle_key(Key::Esc));
    assert!(!app.show_help);
    assert!(!app.handle_key(Key::Char('/')));
    assert!(app.is_searching);
    // While typing, q is text, not quit.
    assert!(!app.handle_key(Key::Char('q')));
    assert!(!app.handle_key(Key::Char('x')));
    assert_eq!(app.search_query, "qx");
    assert!(!app.handle_key(Key::Backspace));
    assert_eq!(app.search_query, "q");
    assert!(!app.handle_key(Key::Enter));
    assert!(!app.is_searching);
    assert!(!app.handle_key(Key::Esc));
    assert_eq!(app.search_query, "");
    assert!(!app.handle_key(Key::Other));
    assert!(app.handle_key(Key::Char('q')));
}

#[test]
fn browser_keys() {
    let mut s = AppState::new(Config::default(), true);
    assert!(s.handle_key(Key::Char('l'), false));
    assert!(s.handle_key(Key::Right, false));
    assert_eq!(s.time_offset, 30 * 60);
    assert!(s.handle_key(Key::Char('h'), false));
    assert_eq!(s.time_offset, 15 * 60);
    assert!(!s.handle_key(Key::Left, true));
    assert_eq!(s.time_offset, 15 * 60);
    assert!(s.handle_key(Key::Char('r'), false));
    assert_eq!(s.time_offset, 0);
    assert!(s.handle_key(Key::Char(' '), false));
    assert!(!s.is_running);
    assert!(!s.handle_key(Key::Esc, false));
    s.open_edit_modal(1);
    assert!(!s.handle_key(Key::Right, false));
    assert_eq!(s.time_offset, 0);
    assert!(s.handle_key(Key::Esc, true));
    assert!(!s.show_config_modal);
    assert_eq!(s.editing_index, None);
    assert!(!s.handle_key(Key::Char('x'), false));
}

#[test]
fn offset_labels() {
    let mut s = AppState::new(Config::default(), true);
    assert_eq!(s.offset_display(), "[ NOW ]");
    s.adjust_time(120);
    assert_eq!(s.offset_display(), "[+2h]");
    s.adjust_time(-210);
    assert_eq!(s.offset_display(), "[-1h 30m]");
    s.adjust_time(75);
    assert_eq!(s.offset_display(), "[+0h 15m]");
    s.adjust_time(-30);
    assert_eq!(s.offset_display(), "[+0h 45m]");
    s.adjust_time(60 * 24 * 3);
    assert_eq!(s.offset_display(), "[+71h 15m]");
}
