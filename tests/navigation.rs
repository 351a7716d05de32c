use vatsim_online::input::{profile_url, Action, Key, Mode};
use vatsim_online::models::{Controller, GeneralData, Pilot, ReferenceItem, V3ResponseData};
use vatsim_online::state::App;

fn pilot(cid: i64, callsign: &str) -> Pilot {
    Pilot {
        cid,
        name: format!("Pilot {}", cid),
        callsign: callsign.to_string(),
        server: "USA-EAST".to_string(),
        pilot_rating: 0,
        latitude: "47.5".to_string(),
        longitude: "-122.3".to_string(),
        altitude: 35000,
        groundspeed: 450,
        transponder: "1200".to_string(),
        heading: 90,
        qnh_i_hg: "29.92".to_string(),
        qnh_mb: 1013,
        flight_plan: None,
        logon_time: String::new(),
        last_updated: String::new(),
    }
}

fn controller(cid: i64, callsign: &str) -> Controller {
    Controller {
        cid,
        name: format!("Controller {}", cid),
        callsign: callsign.to_string(),
        frequency: "118.300".to_string(),
        facility: 4,
        rating: 3,
        server: "USA-WEST".to_string(),
        visual_range: 50,
        text_atis: None,
        last_updated: String::new(),
        logon_time: String::new(),
    }
}

fn snapshot(n_pilots: usize, n_controllers: usize) -> V3ResponseData {
    V3ResponseData {
        general: GeneralData {
            version: 3,
            reload: 1,
            update: String::new(),
            update_timestamp: String::new(),
            connected_clients: 0,
            unique_users: 0,
        },
        pilots: (0..n_pilots).map(|i| pilot(1000 + i as i64, &format!("P{:03}", i))).collect(),
        controllers: (0..n_controllers)
            .map(|i| controller(2000 + i as i64, &format!("C{:03}", i)))
            .collect(),
        facilities: Vec::new(),
        ratings: vec![ReferenceItem { id: 3, short: "S2".to_string(), long: "Student 2".to_string() }],
    }
}

fn cursor(app: &App) -> Option<usize> {
    app.selected_index()
}

#[test]
fn new_app_starts_on_pilots_at_first_row() {
    let app = App::new(snapshot(3, 2));
    assert_eq!(cursor(&app), Some(0));
    assert_eq!(app.mode(), Mode::Browsing);
    assert_eq!(app.get_view_data().title, "Pilots");
}

#[test]
fn down_len_times_returns_to_start() {
    let mut app = App::new(snapshot(5, 0));
    app.down();
    app.down();
    assert_eq!(cursor(&app), Some(2));
    for _ in 0..5 {
        app.down();
    }
    assert_eq!(cursor(&app), Some(2));
}

#[test]
fn down_from_last_wraps_to_first() {
    let mut app = App::new(snapshot(3, 0));
    app.down();
    app.down();
    assert_eq!(cursor(&app), Some(2));
    app.down();
    assert_eq!(cursor(&app), Some(0));
}

#[test]
fn up_from_first_wraps_to_last() {
    let mut app = App::new(snapshot(7, 0));
    app.up();
    assert_eq!(cursor(&app), Some(6));
}

#[test]
fn single_row_list_stays_put() {
    let mut app = App::new(snapshot(1, 0));
    app.down();
    assert_eq!(cursor(&app), Some(0));
    app.up();
    assert_eq!(cursor(&app), Some(0));
}

#[test]
fn page_up_within_first_page_goes_to_top() {
    let mut app = App::new(snapshot(30, 0));
    for _ in 0..10 {
        app.down();
    }
    assert_eq!(cursor(&app), Some(10));
    app.page_up();
    assert_eq!(cursor(&app), Some(0));
}

#[test]
fn page_up_beyond_first_page_moves_back_ten() {
    let mut app = App::new(snapshot(30, 0));
    for _ in 0..11 {
        app.down();
    }
    app.page_up();
    assert_eq!(cursor(&app), Some(1));
    for _ in 0..14 {
        app.down();
    }
    assert_eq!(cursor(&app), Some(15));
    app.page_up();
    assert_eq!(cursor(&app), Some(5));
}

#[test]
fn page_down_moves_ten_or_stops_at_last() {
    let mut app = App::new(snapshot(25, 0));
    app.page_down();
    assert_eq!(cursor(&app), Some(10));
    app.page_down();
    assert_eq!(cursor(&app), Some(20));
    app.page_down();
    assert_eq!(cursor(&app), Some(24));
    app.page_down();
    assert_eq!(cursor(&app), Some(24));
}

#[test]
fn tab_over_resets_both_cursors() {
    let mut app = App::new(snapshot(5, 5));
    app.down();
    app.down();
    app.tab_over();
    assert_eq!(app.get_view_data().title, "Controllers");
    assert_eq!(cursor(&app), Some(0));
    app.down();
    app.down();
    app.down();
    assert_eq!(cursor(&app), Some(3));
    app.tab_over();
    assert_eq!(app.get_view_data().title, "Pilots");
    assert_eq!(cursor(&app), Some(0));
    app.tab_over();
    assert_eq!(cursor(&app), Some(0));
}

#[test]
fn example_sequence_on_five_rows() {
    let mut app = App::new(snapshot(5, 5));
    app.up();
    assert_eq!(cursor(&app), Some(4));
    app.up();
    assert_eq!(cursor(&app), Some(3));
    app.page_down();
    assert_eq!(cursor(&app), Some(4));
    app.up();
    assert_eq!(cursor(&app), Some(3));
    app.tab_over();
    app.tab_over();
    assert_eq!(app.get_view_data().title, "Pilots");
    assert_eq!(cursor(&app), Some(0));
}

#[test]
fn movement_on_empty_list_is_a_no_op() {
    let mut app = App::new(snapshot(0, 0));
    assert_eq!(cursor(&app), None);
    app.down();
    app.up();
    app.page_down();
    app.page_up();
    assert_eq!(cursor(&app), None);
    let view = app.get_view_data();
    assert!(view.data.is_empty());
    assert!(view.selected_row_data.is_none());
}

#[test]
fn enter_opens_popup_and_navigation_is_suppressed() {
    let mut app = App::new(snapshot(5, 5));
    assert_eq!(app.handle_key(Key::Down), Action::Continue);
    assert_eq!(cursor(&app), Some(1));
    assert_eq!(app.handle_key(Key::Enter), Action::Continue);
    assert_eq!(app.mode(), Mode::DetailOpen);
    assert!(app.get_view_data().show_popup);
    for key in [Key::Down, Key::Up, Key::Tab, Key::PageDown, Key::PageUp, Key::Enter, Key::Quit, Key::Other] {
        assert_eq!(app.handle_key(key), Action::Continue);
        assert_eq!(cursor(&app), Some(1));
        assert_eq!(app.get_view_data().title, "Pilots");
        assert_eq!(app.mode(), Mode::DetailOpen);
    }
    assert_eq!(app.handle_key(Key::Escape), Action::Continue);
    assert_eq!(app.mode(), Mode::Browsing);
    assert_eq!(cursor(&app), Some(1));
    assert_eq!(app.get_view_data().title, "Pilots");
}

#[test]
fn enter_on_empty_list_keeps_browsing() {
    let mut app = App::new(snapshot(0, 2));
    assert_eq!(app.handle_key(Key::Enter), Action::Continue);
    assert_eq!(app.mode(), Mode::Browsing);
}

#[test]
fn quit_key_while_browsing_asks_to_leave() {
    let mut app = App::new(snapshot(2, 2));
    assert_eq!(app.handle_key(Key::Quit), Action::Quit);
    assert_eq!(app.handle_key(Key::Other), Action::Continue);
    assert_eq!(app.handle_key(Key::Escape), Action::Continue);
    assert_eq!(app.mode(), Mode::Browsing);
}

#[test]
fn keys_while_browsing_move_the_cursor() {
    let mut app = App::new(snapshot(12, 3));
    app.handle_key(Key::PageDown);
    assert_eq!(cursor(&app), Some(10));
    app.handle_key(Key::Up);
    assert_eq!(cursor(&app), Some(9));
    app.handle_key(Key::PageUp);
    assert_eq!(cursor(&app), Some(0));
    app.handle_key(Key::Tab);
    assert_eq!(app.get_view_data().title, "Controllers");
    app.handle_key(Key::Up);
    assert_eq!(cursor(&app), Some(2));
}

#[test]
fn open_external_gives_profile_url_of_highlighted_entity() {
    let mut app = App::new(snapshot(3, 3));
    app.handle_key(Key::Tab);
    app.handle_key(Key::Down);
    assert_eq!(app.handle_key(Key::OpenExternal), Action::Continue);
    app.handle_key(Key::Enter);
    assert_eq!(
        app.handle_key(Key::OpenExternal),
        Action::OpenUrl("https://stats.vatsim.net/stats/2001".to_string())
    );
    assert_eq!(app.mode(), Mode::DetailOpen);
}

#[test]
fn profile_url_writes_identifier_in_decimal() {
    assert_eq!(profile_url(1234567), "https://stats.vatsim.net/stats/1234567");
    assert_eq!(profile_url(0), "https://stats.vatsim.net/stats/0");
    assert_eq!(profile_url(-42), "https://stats.vatsim.net/stats/-42");
}

#[test]
fn toggle_popup_sets_the_flag() {
    let mut app = App::new(snapshot(2, 0));
    app.toggle_popup(true);
    app.toggle_popup(true);
    assert!(app.popup_open());
    app.toggle_popup(false);
    assert!(!app.popup_open());
}
