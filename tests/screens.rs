use crabbers::service::{Service, ServiceError};
use crabbers::store::{get_dir, get_path, get_user_name};
use crabbers::table::{service_headers, service_row, services_table, TableState};
use crabbers::tabs::{App, AppState, SelectedTab};

fn record(id: usize, name: &str, start: Option<&str>) -> Service {
    Service {
        id,
        name: name.to_string(),
        color: "blue".to_string(),
        start_command: start.map(|s| s.to_string()),
        stop_command: None,
        restart_command: None,
    }
}

#[test]
fn path_is_under_home_of_user() {
    assert_eq!(get_path("alice"), "/home/alice/.crabbers/services.json");
    assert_eq!(get_dir("alice"), "/home/alice/.crabbers");
}

#[test]
fn missing_user_is_configuration_error() {
    assert!(matches!(get_user_name(None), Err(ServiceError::Configuration)));
    assert!(matches!(get_user_name(Some(String::new())), Err(ServiceError::Configuration)));
    assert_eq!(get_user_name(Some("bob".to_string())).unwrap(), "bob");
}

#[test]
fn row_shows_id_name_and_commands() {
    let row = service_row(&record(12, "web", Some("echo up")));
    assert_eq!(row, vec!["12", "web", "echo up", "-", "-"]);
}

#[test]
fn table_of_services() {
    let t = services_table(&vec![record(1, "a", None), record(2, "b", Some("go"))]);
    assert_eq!(t.headers, service_headers());
    assert_eq!(t.headers, vec!["ID", "Name", "Start", "Stop", "Restart"]);
    assert_eq!(t.rows, vec![vec!["1", "a", "-", "-", "-"], vec!["2", "b", "go", "-", "-"]]);
    assert_eq!(t.selected, None);
}

#[test]
fn row_with_wrong_width_is_refused() {
    let mut t = TableState::new(vec!["A", "B"]);
    assert!(!t.add_row(vec!["only".to_string()]));
    assert!(t.rows.is_empty());
    assert!(t.add_row(vec!["x".to_string(), "y".to_string()]));
    assert_eq!(t.rows.len(), 1);
}

#[test]
fn selection_wraps_both_ways() {
    let mut t = TableState::new(vec!["A"]);
    for c in ["1", "2", "3"] {
        t.add_row(vec![c.to_string()]);
    }
    t.next();
    assert_eq!(t.selected, Some(0));
    t.previous();
    assert_eq!(t.selected, Some(2));
    t.next();
    assert_eq!(t.selected, Some(0));
    t.next();
    assert_eq!(t.selected, Some(1));
    t.previous();
    assert_eq!(t.selected, Some(0));
}

#[test]
fn previous_without_selection_selects_first() {
    let mut t = TableState::new(vec!["A"]);
    t.add_row(vec!["1".to_string()]);
    t.previous();
    assert_eq!(t.selected, Some(0));
}

#[test]
fn tabs_stop_at_both_ends() {
    assert_eq!(SelectedTab::Start.previous(), SelectedTab::Start);
    assert_eq!(SelectedTab::Start.next(), SelectedTab::Services);
    assert_eq!(SelectedTab::Crypt.next(), SelectedTab::Crypt);
    assert_eq!(SelectedTab::Crypt.previous(), SelectedTab::Pdf);
    assert_eq!(SelectedTab::from_repr(5), None);
    assert_eq!(SelectedTab::Network.caption(), "2. Network");
}

#[test]
fn app_moves_between_tabs_and_quits() {
    let mut app = App::new();
    assert!(app.is_running());
    app.next_tab();
    assert_eq!(app.selected_tab, SelectedTab::Services);
    app.crypt();
    app.next_tab();
    assert_eq!(app.selected_tab, SelectedTab::Crypt);
    app.previous_tab();
    assert_eq!(app.selected_tab, SelectedTab::Pdf);
    app.network();
    assert_eq!(app.selected_tab, SelectedTab::Network);
    app.services();
    assert_eq!(app.selected_tab, SelectedTab::Services);
    app.pdf();
    assert_eq!(app.selected_tab, SelectedTab::Pdf);
    app.start();
    assert_eq!(app.selected_tab, SelectedTab::Start);
    app.quit();
    assert_eq!(app.state, AppState::Quitting);
    assert!(!app.is_running());
}
