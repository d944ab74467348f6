use quick_search::app::{Action, App, KeyInput, Page};
use quick_search::browser::parse_web_browser;
use quick_search::config::{parse_entries, validate_entries, ConfigError};
use quick_search::ui::{get_colors, render, TextColor};

fn sample_pages() -> Vec<Page> {
    vec![
        Page { name: "DuckDuckGo".to_string(), url: "https://duckduckgo.com/?q=".to_string() },
        Page { name: "URL Search".to_string(), url: "".to_string() },
    ]
}

fn sample_app() -> App {
    App::new(sample_pages())
}

#[test]
fn new_starts_at_first_page_with_empty_query() {
    let app = sample_app();
    assert_eq!(app.selected, 0);
    assert_eq!(app.search_content, "");
    assert!(!app.exit);
    assert_eq!(app.pages.len(), 2);
    assert_eq!(app.pages[0].name, "DuckDuckGo");
    assert_eq!(app.pages[1].url, "");
}

#[test]
fn select_previous_wraps_from_first_to_last() {
    let mut app = sample_app();
    app.select_previous();
    assert_eq!(app.selected, 1);
    app.select_previous();
    assert_eq!(app.selected, 0);
}

#[test]
fn select_next_wraps_from_last_to_first() {
    let mut app = sample_app();
    app.select_next();
    assert_eq!(app.selected, 1);
    app.select_next();
    assert_eq!(app.selected, 0);
}

#[test]
fn select_next_cycles_back_after_len_steps() {
    let pages: Vec<Page> = (0..5)
        .map(|i| Page { name: format!("page{}", i), url: format!("u{}", i) })
        .collect();
    let mut app = App::new(pages);
    app.select_next();
    app.select_next();
    let start = app.selected;
    for _ in 0..5 {
        app.select_next();
        assert!(app.selected < 5);
    }
    assert_eq!(app.selected, start);
}

#[test]
fn selection_stays_in_range_under_mixed_moves() {
    let mut app = sample_app();
    let moves = [true, false, false, true, true, false, true];
    for &next in moves.iter() {
        if next {
            app.select_next();
        } else {
            app.select_previous();
        }
        assert!(app.selected < app.pages.len());
    }
}

#[test]
fn append_then_delete_restores_query() {
    let mut app = sample_app();
    app.append_char('r');
    app.append_char('u');
    let before = app.search_content.clone();
    app.append_char('s');
    app.delete_last_char();
    assert_eq!(app.search_content, before);
}

#[test]
fn delete_on_empty_query_keeps_it_empty() {
    let mut app = sample_app();
    app.delete_last_char();
    assert_eq!(app.search_content, "");
    assert!(!app.exit);
}

#[test]
fn submit_builds_prefixed_url() {
    let mut app = sample_app();
    for c in "rust".chars() {
        app.append_char(c);
    }
    assert_eq!(app.build_url(), "https://duckduckgo.com/?q=rust");
}

#[test]
fn submit_with_empty_prefix_passes_query_through() {
    let mut app = sample_app();
    app.select_next();
    for c in "https://example.com".chars() {
        app.append_char(c);
    }
    assert_eq!(app.build_url(), "https://example.com");
}

#[test]
fn enter_returns_launch_action_and_keeps_state() {
    let mut app = sample_app();
    for c in "rust".chars() {
        app.append_char(c);
    }
    let action = app.handle_key_event(KeyInput::Enter);
    match action {
        Action::Launch(url) => assert_eq!(url, "https://duckduckgo.com/?q=rust"),
        Action::Idle => panic!("Enter must request a launch"),
    }
    assert_eq!(app.selected, 0);
    assert_eq!(app.search_content, "rust");
    assert!(!app.exit);
}

#[test]
fn request_exit_sets_exit_flag_only() {
    let mut app = sample_app();
    app.append_char('x');
    app.request_exit();
    assert!(app.exit);
    assert_eq!(app.selected, 0);
    assert_eq!(app.search_content, "x");
}

#[test]
fn escape_key_requests_exit() {
    let mut app = sample_app();
    let action = app.handle_key_event(KeyInput::Esc);
    assert!(matches!(action, Action::Idle));
    assert!(app.exit);
}

#[test]
fn failed_launch_leaves_state_and_keys_still_work() {
    let mut app = sample_app();
    app.append_char('a');
    app.finish_submit(false);
    assert!(!app.exit);
    assert_eq!(app.selected, 0);
    assert_eq!(app.search_content, "a");
    let action = app.handle_key_event(KeyInput::Char('b'));
    assert!(matches!(action, Action::Idle));
    assert_eq!(app.search_content, "ab");
}

#[test]
fn successful_launch_ends_the_session() {
    let mut app = sample_app();
    app.finish_submit(true);
    assert!(app.exit);
    assert_eq!(app.search_content, "");
}

#[test]
fn other_keys_change_nothing() {
    let mut app = sample_app();
    app.append_char('q');
    let action = app.handle_key_event(KeyInput::Other);
    assert!(matches!(action, Action::Idle));
    assert_eq!(app.selected, 0);
    assert_eq!(app.search_content, "q");
    assert!(!app.exit);
}

#[test]
fn arrow_keys_move_selection() {
    let mut app = sample_app();
    let action = app.handle_key_event(KeyInput::Down);
    assert!(matches!(action, Action::Idle));
    assert_eq!(app.selected, 1);
    app.handle_key_event(KeyInput::Up);
    assert_eq!(app.selected, 0);
    app.handle_key_event(KeyInput::Up);
    assert_eq!(app.selected, 1);
}

#[test]
fn backspace_key_edits_query() {
    let mut app = sample_app();
    app.handle_key_event(KeyInput::Char('h'));
    app.handle_key_event(KeyInput::Char('i'));
    app.handle_key_event(KeyInput::Backspace);
    assert_eq!(app.search_content, "h");
}

#[test]
fn parse_entries_reads_names_and_urls_in_order() {
    let text = r#"{"pages": [
        {"name": "DuckDuckGo", "url": "https://duckduckgo.com/?q="},
        {"name": "URL Search", "url": ""}
    ]}"#;
    let pages = parse_entries(text).expect("well-formed configuration");
    assert_eq!(pages.len(), 2);
    assert_eq!(pages[0].name, "DuckDuckGo");
    assert_eq!(pages[0].url, "https://duckduckgo.com/?q=");
    assert_eq!(pages[1].name, "URL Search");
    assert_eq!(pages[1].url, "");
}

#[test]
fn parse_entries_rejects_zero_pages() {
    let result = parse_entries(r#"{"pages": []}"#);
    assert_eq!(result.unwrap_err(), ConfigError::Empty);
}

#[test]
fn parse_entries_rejects_broken_json() {
    let result = parse_entries("{\"pages\": [");
    assert_eq!(result.unwrap_err(), ConfigError::Malformed);
}

#[test]
fn parse_entries_rejects_missing_pages_key() {
    let result = parse_entries(r#"{"entries": []}"#);
    assert_eq!(result.unwrap_err(), ConfigError::Malformed);
}

#[test]
fn parse_entries_rejects_non_array_pages() {
    let result = parse_entries(r#"{"pages": "duckduckgo"}"#);
    assert_eq!(result.unwrap_err(), ConfigError::Malformed);
}

#[test]
fn parse_entries_rejects_entry_without_url() {
    let result = parse_entries(r#"{"pages": [{"name": "DuckDuckGo"}]}"#);
    assert_eq!(result.unwrap_err(), ConfigError::Malformed);
}

#[test]
fn parse_entries_rejects_non_object_entry() {
    let result = parse_entries(r#"{"pages": [5]}"#);
    assert_eq!(result.unwrap_err(), ConfigError::Malformed);
}

#[test]
fn parse_entries_rejects_non_string_name() {
    let result = parse_entries(r#"{"pages": [{"name": 3, "url": "u"}]}"#);
    assert_eq!(result.unwrap_err(), ConfigError::Malformed);
}

#[test]
fn validate_entries_passes_non_empty_list_through() {
    let pages = validate_entries(sample_pages()).expect("non-empty list");
    assert_eq!(pages.len(), 2);
    assert_eq!(pages[0].name, "DuckDuckGo");
}

#[test]
fn validate_entries_rejects_empty_list() {
    assert_eq!(validate_entries(Vec::new()).unwrap_err(), ConfigError::Empty);
}

#[test]
fn config_error_messages_name_the_failure() {
    assert_eq!(ConfigError::Unreadable.message(), "Failed to read configuration content");
    assert_eq!(ConfigError::Malformed.message(), "Failed to parse configuration content");
    assert_eq!(ConfigError::Empty.message(), "Configuration lists no pages");
}

#[test]
fn browser_name_takes_segment_before_first_dot() {
    assert_eq!(parse_web_browser("org.mozilla.firefox.desktop\n"), "org");
    assert_eq!(parse_web_browser("chromium.desktop"), "chromium");
}

#[test]
fn browser_name_without_dot_is_whole_identifier() {
    assert_eq!(parse_web_browser("firefox\n"), "firefox");
}

#[test]
fn browser_name_trims_surrounding_whitespace() {
    assert_eq!(parse_web_browser("  \t brave.desktop \r\n"), "brave");
}

#[test]
fn browser_name_trims_unicode_whitespace() {
    assert_eq!(parse_web_browser("\u{00A0}firefox.desktop\u{00A0}"), "firefox");
    assert_eq!(parse_web_browser("\u{2028}\u{3000}epiphany\u{2009}"), "epiphany");
    assert_eq!("\u{00A0}firefox.desktop\u{00A0}".trim(), "firefox.desktop");
}

#[test]
fn browser_name_of_empty_output_is_empty() {
    assert_eq!(parse_web_browser(""), "");
    assert_eq!(parse_web_browser("   \n"), "");
    assert_eq!(parse_web_browser(".hidden"), "");
}

#[test]
fn render_describes_title_query_and_highlight() {
    let mut app = sample_app();
    for c in "rust".chars() {
        app.append_char(c);
    }
    app.select_next();
    let frame = render(&app);
    assert_eq!(frame.title, " Quick Search ");
    assert_eq!(frame.search_line, "Search content: rust█");
    assert_eq!(frame.options.len(), 2);
    assert_eq!(frame.options[0].text, "DuckDuckGo");
    assert_eq!(frame.options[1].text, "URL Search");
    assert_eq!(frame.options[1].colors.foreground, TextColor::Black);
    assert_eq!(frame.options[1].colors.background, TextColor::LightYellow);
    assert_eq!(frame.options[0].colors.foreground, TextColor::LightYellow);
    assert_eq!(frame.options[0].colors.background, TextColor::Reset);
}

#[test]
fn render_lists_instruction_spans_in_order() {
    let app = sample_app();
    let frame = render(&app);
    let texts: Vec<&str> = frame.instructions.iter().map(|s| s.text.as_str()).collect();
    assert_eq!(texts, vec![" Previous ", "<Up>", " Next ", "<Down>", " Quit ", "<Esc> "]);
    let emphasized: Vec<bool> = frame.instructions.iter().map(|s| s.emphasized).collect();
    assert_eq!(emphasized, vec![false, true, false, true, false, true]);
}

#[test]
fn get_colors_highlights_only_the_selected_index() {
    let selected = get_colors(3, 3);
    assert_eq!(selected.foreground, TextColor::Black);
    assert_eq!(selected.background, TextColor::LightYellow);
    let other = get_colors(3, 1);
    assert_eq!(other.foreground, TextColor::LightYellow);
    assert_eq!(other.background, TextColor::Reset);
}
