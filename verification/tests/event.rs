use docker_tui::docker::container::ContainerRecord;
use docker_tui::docker::request::{Action, Request};
use docker_tui::ui::app::App;
use docker_tui::ui::event::{
    follow, handle_key, read_key, refresh_due, Command, Intent, Key, RefreshTimer,
    POLL_TIMEOUT_MS, REFRESH_INTERVAL_MS,
};
use docker_tui::ui::layout::Area;
use docker_tui::ui::render;

fn container(id: &str, name: &str) -> ContainerRecord {
    ContainerRecord {
        id: Some(id.to_string()),
        names: vec![name.to_string()],
        image: None,
        state: Some("running".to_string()),
        status: None,
    }
}

fn listed() -> App {
    let mut app = App::new();
    app.refresh_containers(Ok(vec![container("a1", "/alpha"), container("b2", "/beta")])).unwrap();
    app
}

#[test]
fn keys_outside_confirmation() {
    assert_eq!(read_key(false, Key::Char('q')), Intent::Quit);
    assert_eq!(read_key(false, Key::Down), Intent::Next);
    assert_eq!(read_key(false, Key::Char('j')), Intent::Next);
    assert_eq!(read_key(false, Key::Up), Intent::Previous);
    assert_eq!(read_key(false, Key::Char('k')), Intent::Previous);
    assert_eq!(read_key(false, Key::Char('s')), Intent::Start);
    assert_eq!(read_key(false, Key::Char('x')), Intent::Stop);
    assert_eq!(read_key(false, Key::Char('r')), Intent::Restart);
    assert_eq!(read_key(false, Key::Char('d')), Intent::RequestDelete);
    assert_eq!(read_key(false, Key::Char('R')), Intent::Refresh);
    for key in [
        Key::Char('Q'),
        Key::Char('S'),
        Key::Char('X'),
        Key::Char('D'),
        Key::Char('y'),
        Key::Char('n'),
        Key::Char(' '),
        Key::Esc,
        Key::Other,
    ] {
        assert_eq!(read_key(false, key), Intent::Ignore);
    }
}

#[test]
fn keys_in_confirmation() {
    assert_eq!(read_key(true, Key::Char('y')), Intent::ConfirmDelete);
    assert_eq!(read_key(true, Key::Char('Y')), Intent::ConfirmDelete);
    assert_eq!(read_key(true, Key::Char('n')), Intent::CancelDelete);
    assert_eq!(read_key(true, Key::Char('N')), Intent::CancelDelete);
    assert_eq!(read_key(true, Key::Esc), Intent::CancelDelete);
    for key in [
        Key::Char('q'),
        Key::Char('j'),
        Key::Char('k'),
        Key::Char('s'),
        Key::Char('x'),
        Key::Char('r'),
        Key::Char('d'),
        Key::Char('R'),
        Key::Up,
        Key::Down,
        Key::Other,
    ] {
        assert_eq!(read_key(true, key), Intent::Ignore);
    }
}

#[test]
fn delete_is_asked_for_shown_and_called_off() {
    let mut app = listed();
    handle_key(&mut app, Key::Down, 0);
    let before = app.containers().clone();
    assert_eq!(handle_key(&mut app, Key::Char('d'), 1), Command::Nothing);
    assert!(app.show_delete_confirm());
    let tree = render(Area { x: 0, y: 0, width: 100, height: 50 }, &app);
    let modal = tree.modal.expect("the dialog is shown");
    let shown: Vec<String> = modal
        .lines
        .iter()
        .flat_map(|line| line.spans.iter().map(|span| span.content.clone()))
        .collect();
    assert!(shown.contains(&"beta".to_string()));
    assert_eq!(handle_key(&mut app, Key::Char('n'), 2), Command::Nothing);
    assert!(!app.show_delete_confirm());
    assert_eq!(app.containers(), &before);
    assert_eq!(app.status_message(), None);
    let tree = render(Area { x: 0, y: 0, width: 100, height: 50 }, &app);
    assert_eq!(tree.modal, None);
}

#[test]
fn delete_key_without_selection_does_nothing() {
    let mut app = App::new();
    assert_eq!(handle_key(&mut app, Key::Char('d'), 1), Command::Nothing);
    assert!(!app.show_delete_confirm());
}

#[test]
fn confirmation_freezes_the_other_keys() {
    let mut app = listed();
    handle_key(&mut app, Key::Char('d'), 0);
    for key in [Key::Char('q'), Key::Down, Key::Up, Key::Char('s'), Key::Char('R'), Key::Other] {
        assert_eq!(handle_key(&mut app, key, 1), Command::Nothing);
        assert!(app.show_delete_confirm());
        assert!(!app.should_quit());
        assert_eq!(app.selection(), Some(0));
        assert_eq!(app.status_message(), None);
    }
    assert_eq!(handle_key(&mut app, Key::Esc, 2), Command::Nothing);
    assert!(!app.show_delete_confirm());
}

#[test]
fn confirming_asks_for_the_removal() {
    let mut app = listed();
    handle_key(&mut app, Key::Char('d'), 0);
    let command = handle_key(&mut app, Key::Char('Y'), 5);
    assert_eq!(
        command,
        Command::Call(Request { action: Action::Remove, id: "a1".to_string() })
    );
    assert!(!app.show_delete_confirm());
    assert_eq!(app.status_message(), Some("Removing container..."));
}

#[test]
fn action_keys_ask_for_their_calls() {
    let mut app = listed();
    assert_eq!(
        handle_key(&mut app, Key::Char('s'), 0),
        Command::Call(Request { action: Action::Start, id: "a1".to_string() })
    );
    handle_key(&mut app, Key::Char('j'), 0);
    assert_eq!(
        handle_key(&mut app, Key::Char('x'), 0),
        Command::Call(Request { action: Action::Stop, id: "b2".to_string() })
    );
    handle_key(&mut app, Key::Char('k'), 0);
    assert_eq!(
        handle_key(&mut app, Key::Char('r'), 0),
        Command::Call(Request { action: Action::Restart, id: "a1".to_string() })
    );
    assert_eq!(handle_key(&mut app, Key::Char('R'), 0), Command::Refresh);
    assert_eq!(app.status_message(), Some("Restarting container..."));
    let mut empty = App::new();
    assert_eq!(handle_key(&mut empty, Key::Char('s'), 0), Command::Nothing);
    assert_eq!(handle_key(&mut empty, Key::Char('R'), 0), Command::Refresh);
}

#[test]
fn quit_key_sets_the_flag() {
    let mut app = listed();
    assert_eq!(handle_key(&mut app, Key::Char('q'), 0), Command::Nothing);
    assert!(app.should_quit());
}

#[test]
fn follow_ignores_and_refreshes_without_touching_the_state() {
    let mut app = listed();
    assert_eq!(follow(&mut app, Intent::Ignore, 9), Command::Nothing);
    assert_eq!(follow(&mut app, Intent::Refresh, 9), Command::Refresh);
    assert_eq!(app.selection(), Some(0));
    assert_eq!(app.status_message(), None);
    assert!(!app.should_quit());
}

#[test]
fn refresh_is_due_after_the_interval() {
    assert_eq!(REFRESH_INTERVAL_MS, 500);
    assert_eq!(POLL_TIMEOUT_MS, 16);
    assert!(!refresh_due(1000, 1000));
    assert!(!refresh_due(1000, 1499));
    assert!(refresh_due(1000, 1500));
    assert!(refresh_due(1000, 9000));
    assert!(!refresh_due(1000, 10));
    assert!(refresh_due(0, u64::MAX));
}

#[test]
fn timer_restarts_on_work_and_on_background_listings() {
    let mut timer = RefreshTimer::new(100);
    assert!(!timer.due(100));
    assert!(!timer.due(599));
    assert!(timer.due(600));
    timer.carried_out(&Command::Nothing, 400);
    assert!(timer.due(600));
    timer.carried_out(&Command::Refresh, 400);
    assert!(!timer.due(899));
    assert!(timer.due(900));
    let call = Command::Call(Request { action: Action::Stop, id: "a1".to_string() });
    timer.carried_out(&call, 1000);
    assert!(!timer.due(1499));
    assert!(timer.due(1500));
    timer.listed(1500);
    assert!(!timer.due(1500));
    assert!(!timer.due(1999));
    assert!(timer.due(2000));
    assert!(!timer.due(0));
}
