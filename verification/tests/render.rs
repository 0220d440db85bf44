use docker_tui::docker::container::ContainerRecord;
use docker_tui::docker::request::RuntimeError;
use docker_tui::ui::app::App;
use docker_tui::ui::layout::{centering_constraints, framing_constraints, Area, Constraint};
use docker_tui::ui::render::{
    compose, get_health_status, get_pending_name, get_state_color, render,
    render_container_list, render_delete_confirmation, render_footer, render_header, render_row,
};
use docker_tui::ui::style::{Color, Style};
use docker_tui::ui::tree::{Alignment, Body, Line, Span};

const SCREEN: Area = Area { x: 0, y: 0, width: 200, height: 60 };

fn at(x: u16, y: u16, width: u16, height: u16) -> Area {
    Area { x, y, width, height }
}

fn web() -> ContainerRecord {
    ContainerRecord {
        id: Some("abc123def456".to_string()),
        names: vec!["/web".to_string()],
        image: Some("nginx:latest".to_string()),
        state: Some("running".to_string()),
        status: Some("Up 2 minutes (healthy)".to_string()),
    }
}

fn db() -> ContainerRecord {
    ContainerRecord {
        id: Some("0123456789abcdef0123456789abcdef".to_string()),
        names: vec!["/db".to_string(), "/alias".to_string()],
        image: Some("postgres:16".to_string()),
        state: Some("exited".to_string()),
        status: Some("Exited (0) 3 hours ago".to_string()),
    }
}

fn app_with(list: Vec<ContainerRecord>) -> App {
    let mut app = App::new();
    app.refresh_containers(Ok(list)).unwrap();
    app
}

fn text_of(line: &Line) -> String {
    line.spans.iter().map(|span| span.content.as_str()).collect()
}

fn footer_text() -> String {
    "↑/↓: Navigate  s: Start  x: Stop  r: Restart  d: Delete  R: Refresh  q: Quit  ●: Healthy  ●: Unhealthy"
        .to_string()
}

#[test]
fn row_of_a_healthy_running_container() {
    let line = render_row(&web());
    assert_eq!(line.spans.len(), 5);
    assert_eq!(line.spans[0], Span { content: format!("{:<28}", "web"), style: Style::strong(Color::White) });
    assert_eq!(line.spans[1], Span { content: "●  ".to_string(), style: Style::strong(Color::Green) });
    assert_eq!(
        line.spans[2],
        Span { content: "abc123def456".to_string(), style: Style::colored(Color::DarkGray) }
    );
    assert_eq!(
        line.spans[3],
        Span { content: "running     ".to_string(), style: Style::colored(Color::Green) }
    );
    assert_eq!(
        line.spans[4],
        Span { content: "nginx:latest".to_string(), style: Style::colored(Color::Gray) }
    );
}

#[test]
fn row_of_an_exited_container() {
    let line = render_row(&db());
    assert_eq!(
        text_of(&line),
        format!("{:<28}{:<3}{:<12}{:<12}{}", "db", "", "0123456789ab", "exited", "postgres:16")
    );
    assert_eq!(line.spans[1].style, Style::strong(Color::Gray));
    assert_eq!(line.spans[3].style, Style::colored(Color::Red));
}

#[test]
fn row_of_a_container_with_nothing_known() {
    let bare = ContainerRecord { id: None, names: Vec::new(), image: None, state: None, status: None };
    let line = render_row(&bare);
    assert_eq!(
        text_of(&line),
        format!("{:<28}{:<3}{:<12}{:<12}{}", "unknown", "", "unknown", "unknown", "unknown")
    );
    assert_eq!(line.spans[3].style, Style::colored(Color::Gray));
}

#[test]
fn health_glyphs_and_colors() {
    let mut c = web();
    assert_eq!(get_health_status(&c), ("●", Color::Green));
    c.status = Some("Up (unhealthy)".to_string());
    assert_eq!(get_health_status(&c), ("●", Color::Red));
    c.status = Some("Up (health: starting)".to_string());
    assert_eq!(get_health_status(&c), ("◐", Color::Yellow));
    c.status = Some("Up (starting)".to_string());
    assert_eq!(get_health_status(&c), ("◐", Color::Yellow));
    c.status = Some("Up".to_string());
    assert_eq!(get_health_status(&c), ("", Color::Gray));
    assert_eq!(get_health_status(&db()), ("", Color::Gray));
    let mut stateless = web();
    stateless.state = None;
    assert_eq!(get_health_status(&stateless), ("", Color::Gray));
    assert_eq!(render_row(&stateless).spans[1], Span { content: "   ".to_string(), style: Style::strong(Color::Gray) });
}

#[test]
fn state_colors() {
    assert_eq!(get_state_color("running"), Color::Green);
    assert_eq!(get_state_color("exited"), Color::Red);
    assert_eq!(get_state_color("paused"), Color::Yellow);
    assert_eq!(get_state_color("created"), Color::Gray);
    assert_eq!(get_state_color("unknown"), Color::Gray);
    assert_eq!(get_state_color(""), Color::Gray);
}

#[test]
fn styles_are_what_they_say() {
    assert_eq!(Style::plain(), Style { fg: None, bg: None, bold: false });
    assert_eq!(Style::colored(Color::Red), Style { fg: Some(Color::Red), bg: None, bold: false });
    assert_eq!(Style::strong(Color::Cyan), Style { fg: Some(Color::Cyan), bg: None, bold: true });
    assert_eq!(
        Style::highlight(Color::DarkGray),
        Style { fg: None, bg: Some(Color::DarkGray), bold: true }
    );
    assert_eq!(Span::raw("x"), Span { content: "x".to_string(), style: Style::plain() });
    assert_eq!(Line::empty().spans.len(), 0);
    assert_eq!(Line::single(Span::raw("x")).spans, vec![Span::raw("x")]);
}

#[test]
fn empty_list_shows_zero_count_placeholder_and_legend() {
    let app = App::new();
    let tree = render(SCREEN, &app);
    assert_eq!(tree.header.lines.len(), 1);
    assert_eq!(text_of(&tree.header.lines[0]), "Docker Container Manager - 0 containers");
    match &tree.body {
        Body::Placeholder(panel) => {
            assert_eq!(panel.title, Some("Containers".to_string()));
            assert_eq!(panel.alignment, Alignment::Center);
            assert_eq!(panel.style, Style::colored(Color::Gray));
            assert_eq!(panel.lines.len(), 1);
            assert_eq!(
                text_of(&panel.lines[0]),
                "No containers found. Start some containers to see them here."
            );
            assert!(!panel.clears);
        }
        Body::Containers(_) => panic!("an empty list was drawn as a list"),
    }
    assert_eq!(tree.footer.lines.len(), 1);
    assert_eq!(text_of(&tree.footer.lines[0]), footer_text());
    assert_eq!(tree.footer, render(SCREEN, &app_with(vec![web(), db()])).footer);
    assert_eq!(tree.modal, None);
}

#[test]
fn header_counts_the_containers() {
    let header = render_header(&app_with(vec![web()]), SCREEN);
    assert_eq!(text_of(&header.lines[0]), "Docker Container Manager - 1 containers");
    let many = (0..12).map(|_| web()).collect();
    let header = render_header(&app_with(many), SCREEN);
    assert_eq!(text_of(&header.lines[0]), "Docker Container Manager - 12 containers");
    assert_eq!(header.style, Style::strong(Color::Cyan));
    assert_eq!(header.border_style, Style::plain());
    assert_eq!(header.title, None);
    assert_eq!(header.alignment, Alignment::Left);
    assert_eq!(header.area, SCREEN);
    assert!(!header.clears);
}

#[test]
fn header_shows_the_status_message_in_place_of_the_count() {
    let mut app = app_with(vec![web(), db()]);
    app.report_error(&RuntimeError { description: "connection lost".to_string() }, 0);
    let header = render_header(&app, SCREEN);
    assert_eq!(text_of(&header.lines[0]), "Docker Container Manager - connection lost");
    app.start_selected(5).unwrap();
    let header = render_header(&app, SCREEN);
    assert_eq!(text_of(&header.lines[0]), "Docker Container Manager - Starting container...");
}

#[test]
fn list_has_a_row_for_each_container_and_marks_the_cursor() {
    let mut app = app_with(vec![web(), db()]);
    app.next_container();
    match render_container_list(&app, at(0, 3, 80, 18)) {
        Body::Containers(list) => {
            assert_eq!(list.area, at(0, 3, 80, 18));
            assert_eq!(list.title, "Containers");
            assert_eq!(list.rows, vec![render_row(&web()), render_row(&db())]);
            assert_eq!(list.selected, Some(1));
            assert_eq!(list.highlight_style, Style::highlight(Color::DarkGray));
            assert_eq!(list.highlight_symbol, ">> ");
        }
        Body::Placeholder(_) => panic!("a list was drawn as a placeholder"),
    }
}

#[test]
fn footer_is_the_legend() {
    let footer = render_footer(at(0, 21, 80, 3));
    assert_eq!(footer.area, at(0, 21, 80, 3));
    assert_eq!(footer.lines.len(), 1);
    let spans = &footer.lines[0].spans;
    assert_eq!(spans.len(), 17);
    assert_eq!(spans[0], Span::raw("↑/↓: Navigate  "));
    assert_eq!(spans[1], Span::styled("s", Style::colored(Color::Green)));
    assert_eq!(spans[3], Span::styled("x", Style::colored(Color::Red)));
    assert_eq!(spans[5], Span::styled("r", Style::colored(Color::Yellow)));
    assert_eq!(spans[7], Span::styled("d", Style::colored(Color::Red)));
    assert_eq!(spans[9], Span::styled("R", Style::colored(Color::Cyan)));
    assert_eq!(spans[11], Span::styled("q", Style::colored(Color::Cyan)));
    assert_eq!(spans[13], Span::styled("●", Style::colored(Color::Green)));
    assert_eq!(spans[15], Span::styled("●", Style::colored(Color::Red)));
    assert_eq!(spans[16], Span::raw(": Unhealthy"));
    assert_eq!(text_of(&footer.lines[0]), footer_text());
    assert_eq!(footer.title, None);
    assert!(!footer.clears);
}

#[test]
fn dialog_names_the_container_under_the_cursor() {
    let mut app = app_with(vec![web(), db()]);
    app.next_container();
    assert_eq!(get_pending_name(&app), "db");
    let modal = render_delete_confirmation(&app, at(20, 10, 40, 4));
    assert_eq!(modal.area, at(20, 10, 40, 4));
    assert_eq!(modal.lines.len(), 6);
    assert_eq!(modal.lines[0], Line::empty());
    assert_eq!(
        modal.lines[1],
        Line::single(Span::styled("Delete Container?", Style::strong(Color::Red)))
    );
    assert_eq!(modal.lines[2], Line::empty());
    assert_eq!(modal.lines[3], Line::single(Span::styled("db", Style::colored(Color::Yellow))));
    assert_eq!(modal.lines[4], Line::empty());
    assert_eq!(modal.lines[5], Line::single(Span::raw("Press 'y' to confirm, 'n' to cancel")));
    assert_eq!(modal.alignment, Alignment::Center);
    assert_eq!(modal.border_style, Style::colored(Color::Red));
    assert!(modal.clears);
    assert_eq!(get_pending_name(&App::new()), "unknown");
}

#[test]
fn dialog_is_there_only_in_confirmation() {
    let mut app = app_with(vec![web()]);
    assert_eq!(render(SCREEN, &app).modal, None);
    app.request_delete_confirm();
    let tree = render(SCREEN, &app);
    assert_eq!(tree.modal.as_ref().map(|m| m.lines[3].clone()), Some(Line::single(Span::styled("web", Style::colored(Color::Yellow)))));
    app.cancel_delete();
    assert_eq!(render(SCREEN, &app).modal, None);
}

#[test]
fn compose_puts_each_part_where_it_is_told() {
    let mut app = app_with(vec![web()]);
    app.request_delete_confirm();
    let tree = compose(&app, at(0, 0, 9, 1), at(0, 1, 9, 2), at(0, 3, 9, 1), at(2, 1, 5, 2));
    assert_eq!(tree.header, render_header(&app, at(0, 0, 9, 1)));
    assert_eq!(tree.body, render_container_list(&app, at(0, 1, 9, 2)));
    assert_eq!(tree.footer, render_footer(at(0, 3, 9, 1)));
    assert_eq!(tree.modal, Some(render_delete_confirmation(&app, at(2, 1, 5, 2))));
}

#[test]
fn screen_is_divided_into_bars_and_body() {
    let mut app = app_with(vec![web()]);
    app.request_delete_confirm();
    let tree = render(SCREEN, &app);
    assert_eq!(tree.header.area, at(0, 0, 200, 3));
    assert_eq!(tree.footer.area, at(0, 57, 200, 3));
    match &tree.body {
        Body::Containers(list) => assert_eq!(list.area, at(0, 3, 200, 54)),
        Body::Placeholder(_) => panic!("a list was drawn as a placeholder"),
    }
    assert_eq!(tree.modal.map(|m| m.area), Some(at(50, 24, 100, 12)));
}

#[test]
fn screen_that_does_not_start_at_the_origin() {
    let mut app = App::new();
    app.request_delete_confirm();
    let tree = render(at(5, 7, 100, 50), &app);
    assert_eq!(tree.header.area, at(5, 7, 100, 3));
    match &tree.body {
        Body::Placeholder(panel) => assert_eq!(panel.area, at(5, 10, 100, 44)),
        Body::Containers(_) => panic!("an empty list was drawn as a list"),
    }
    assert_eq!(tree.footer.area, at(5, 54, 100, 3));
    assert_eq!(tree.modal, None);
    let app = {
        let mut app = app_with(vec![db()]);
        app.request_delete_confirm();
        app
    };
    let tree = render(at(5, 7, 100, 50), &app);
    assert_eq!(tree.modal.map(|m| m.area), Some(at(30, 27, 50, 10)));
}

#[test]
fn parts_reach_across_even_the_smallest_screens() {
    let app = app_with(vec![web()]);
    for (width, height) in [(0u16, 0u16), (1, 1), (10, 4), (3, 200), (500, 2)] {
        let whole = at(1, 2, width, height);
        let tree = render(whole, &app);
        for area in [tree.header.area, tree.footer.area] {
            assert_eq!(area.x, whole.x);
            assert_eq!(area.width, whole.width);
        }
    }
}

#[test]
fn constraints_handed_to_the_layout() {
    assert_eq!(
        framing_constraints(3),
        vec![Constraint::Length(3), Constraint::Min(0), Constraint::Length(3)]
    );
    assert_eq!(
        centering_constraints(20),
        vec![Constraint::Percentage(40), Constraint::Percentage(20), Constraint::Percentage(40)]
    );
    assert_eq!(
        centering_constraints(50),
        vec![Constraint::Percentage(25), Constraint::Percentage(50), Constraint::Percentage(25)]
    );
    assert_eq!(
        centering_constraints(100),
        vec![Constraint::Percentage(0), Constraint::Percentage(100), Constraint::Percentage(0)]
    );
    assert_eq!(
        centering_constraints(0),
        vec![Constraint::Percentage(50), Constraint::Percentage(0), Constraint::Percentage(50)]
    );
    assert_eq!(
        centering_constraints(35),
        vec![Constraint::Percentage(32), Constraint::Percentage(35), Constraint::Percentage(32)]
    );
}

fn lies_within(whole: Area, part: Area) -> bool {
    whole.x <= part.x
        && u32::from(part.x) + u32::from(part.width) <= u32::from(whole.x) + u32::from(whole.width)
        && whole.y <= part.y
        && u32::from(part.y) + u32::from(part.height) <= u32::from(whole.y) + u32::from(whole.height)
}

#[test]
fn every_part_lies_within_the_screen() {
    let mut app = app_with(vec![web(), db()]);
    app.request_delete_confirm();
    let mut screens = vec![
        at(0, 0, 0, 0),
        at(0, 0, 1, 1),
        at(0, 0, 1, 9),
        at(0, 0, 9, 1),
        at(3, 4, 0, 7),
        at(3, 4, 7, 0),
        at(60000, 60000, 5535, 5535),
        at(65535, 65535, 0, 0),
        at(65000, 65000, 10000, 10000),
        at(65535, 65535, 65535, 65535),
        at(0, 0, 65535, 65535),
    ];
    for width in 1..40u16 {
        for height in 1..40u16 {
            screens.push(at(width % 7, height % 5, width, height));
        }
    }
    for whole in screens {
        let tree = render(whole, &app);
        let body = match &tree.body {
            Body::Containers(list) => list.area,
            Body::Placeholder(panel) => panel.area,
        };
        let modal = tree.modal.as_ref().map(|m| m.area).expect("the dialog is shown");
        for part in [tree.header.area, body, tree.footer.area, modal] {
            assert!(lies_within(whole, part), "{:?} is not within {:?}", part, whole);
        }
        for part in [tree.header.area, body, tree.footer.area] {
            assert_eq!((part.x, part.width), (whole.x, whole.width));
        }
    }
}
