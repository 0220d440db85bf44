//! From the state of the dashboard to what is drawn.
//!
//! Nothing here changes the state or touches a terminal. The screen is
//! described as a `RenderTree`; drawing it is left to the caller.

use crate::docker::container::{ContainerRecord, ContainerRecordView, Health};
use crate::text::{append_decimal, decimal, pad_right, padded, same};
use crate::ui::app::{App, AppView};
use crate::ui::layout::{
    centered, centered_rect, divided, framed, framing, framing_constraints, spans_across, split,
    within, Area, Direction,
};
use crate::ui::style::{Color, Style};
use crate::ui::tree::{
    Alignment, Body, BodyView, Line, ListPanel, ListPanelView, Panel, PanelView, RenderTree,
    RenderTreeView, Span, SpanView,
};
use vstd::prelude::*;

verus! {

/// The height of the header and of the footer, borders included.
pub const BAR_HEIGHT: u16 = 3;

/// The share of the screen's width that the confirmation dialog takes, in
/// hundredths.
pub const MODAL_PERCENT_X: u16 = 50;

/// The share of the screen's height that the confirmation dialog takes, in
/// hundredths.
pub const MODAL_PERCENT_Y: u16 = 20;

/// The widths of the columns of a row; the image comes last and is not
/// padded.
pub const NAME_WIDTH: usize = 28;

pub const HEALTH_WIDTH: usize = 3;

pub const ID_WIDTH: usize = 12;

pub const STATE_WIDTH: usize = 12;

/// The glyph that stands for a health.
pub open spec fn health_glyph(health: Health) -> Seq<char> {
    match health {
        Health::Healthy => "●"@,
        Health::Unhealthy => "●"@,
        Health::Starting => "◐"@,
        Health::Neutral => ""@,
    }
}

/// The color that stands for a health.
pub open spec fn health_color(health: Health) -> Color {
    match health {
        Health::Healthy => Color::Green,
        Health::Unhealthy => Color::Red,
        Health::Starting => Color::Yellow,
        Health::Neutral => Color::Gray,
    }
}

/// The color in which a state is written.
pub open spec fn state_color(state: Seq<char>) -> Color {
    if state == "running"@ {
        Color::Green
    } else if state == "exited"@ {
        Color::Red
    } else if state == "paused"@ {
        Color::Yellow
    } else {
        Color::Gray
    }
}

/// A span as a value.
pub open spec fn span(content: Seq<char>, style: Style) -> SpanView {
    SpanView { content, style }
}

/// The text of the header: the status message where one is set, else the
/// number of containers.
pub open spec fn header_text(app: AppView) -> Seq<char> {
    match app.status_text() {
        Some(message) => "Docker Container Manager - "@ + message,
        None => "Docker Container Manager - "@ + decimal(app.containers.len()) + " containers"@,
    }
}

/// The header, standing in `area`.
pub open spec fn header(app: AppView, area: Area) -> PanelView {
    PanelView {
        area,
        title: None,
        style: Style::strong(Color::Cyan),
        border_style: Style::plain(),
        alignment: Alignment::Left,
        lines: seq![seq![span(header_text(app), Style::plain())]],
        clears: false,
    }
}

/// The row of one container: name, health, identifier, state and image.
pub open spec fn row(record: ContainerRecordView) -> Seq<SpanView> {
    seq![
        span(padded(record.display_name(), NAME_WIDTH as nat), Style::strong(Color::White)),
        span(
            padded(health_glyph(record.health()), HEALTH_WIDTH as nat),
            Style::strong(health_color(record.health())),
        ),
        span(padded(record.short_id(), ID_WIDTH as nat), Style::colored(Color::DarkGray)),
        span(
            padded(record.state_text(), STATE_WIDTH as nat),
            Style::colored(state_color(record.state_text())),
        ),
        span(record.image_text(), Style::colored(Color::Gray)),
    ]
}

/// The rows of all containers, in the order of the listing.
pub open spec fn rows(containers: Seq<ContainerRecordView>) -> Seq<Seq<SpanView>> {
    Seq::new(containers.len(), |i: int| row(containers[i]))
}

/// The body, standing in `area`.
pub open spec fn body(app: AppView, area: Area) -> BodyView {
    if app.containers.len() == 0 {
        BodyView::Placeholder(
            PanelView {
                area,
                title: Some("Containers"@),
                style: Style::colored(Color::Gray),
                border_style: Style::plain(),
                alignment: Alignment::Center,
                lines: seq![
                    seq![
                        span(
                            "No containers found. Start some containers to see them here."@,
                            Style::plain(),
                        ),
                    ],
                ],
                clears: false,
            },
        )
    } else {
        BodyView::Containers(
            ListPanelView {
                area,
                title: "Containers"@,
                rows: rows(app.containers),
                selected: app.selection,
                highlight_style: Style::highlight(Color::DarkGray),
                highlight_symbol: ">> "@,
            },
        )
    }
}

/// The legend of the keys.
pub open spec fn legend() -> Seq<SpanView> {
    seq![
        span("↑/↓: Navigate  "@, Style::plain()),
        span("s"@, Style::colored(Color::Green)),
        span(": Start  "@, Style::plain()),
        span("x"@, Style::colored(Color::Red)),
        span(": Stop  "@, Style::plain()),
        span("r"@, Style::colored(Color::Yellow)),
        span(": Restart  "@, Style::plain()),
        span("d"@, Style::colored(Color::Red)),
        span(": Delete  "@, Style::plain()),
        span("R"@, Style::colored(Color::Cyan)),
        span(": Refresh  "@, Style::plain()),
        span("q"@, Style::colored(Color::Cyan)),
        span(": Quit  "@, Style::plain()),
        span("●"@, Style::colored(Color::Green)),
        span(": Healthy  "@, Style::plain()),
        span("●"@, Style::colored(Color::Red)),
        span(": Unhealthy"@, Style::plain()),
    ]
}

/// The footer, standing in `area`. It does not depend on the state.
pub open spec fn footer(area: Area) -> PanelView {
    PanelView {
        area,
        title: None,
        style: Style::plain(),
        border_style: Style::plain(),
        alignment: Alignment::Left,
        lines: seq![legend()],
        clears: false,
    }
}

/// The name that the confirmation dialog shows: that of the container
/// under the cursor.
pub open spec fn pending_name(app: AppView) -> Seq<char> {
    match app.selection {
        Some(i) => if i < app.containers.len() {
            app.containers[i as int].display_name()
        } else {
            "unknown"@
        },
        None => "unknown"@,
    }
}

/// The confirmation dialog, standing in `area`.
pub open spec fn modal(app: AppView, area: Area) -> PanelView {
    PanelView {
        area,
        title: None,
        style: Style::plain(),
        border_style: Style::colored(Color::Red),
        alignment: Alignment::Center,
        lines: seq![
            Seq::<SpanView>::empty(),
            seq![span("Delete Container?"@, Style::strong(Color::Red))],
            Seq::<SpanView>::empty(),
            seq![span(pending_name(app), Style::colored(Color::Yellow))],
            Seq::<SpanView>::empty(),
            seq![span("Press 'y' to confirm, 'n' to cancel"@, Style::plain())],
        ],
        clears: true,
    }
}

/// The whole screen, with each part standing in the area given for it.
/// The dialog is there exactly while a delete waits for confirmation.
pub open spec fn screen(
    app: AppView,
    header_area: Area,
    body_area: Area,
    footer_area: Area,
    modal_area: Area,
) -> RenderTreeView {
    RenderTreeView {
        header: header(app, header_area),
        body: body(app, body_area),
        footer: footer(footer_area),
        modal: if app.show_delete_confirm {
            Some(modal(app, modal_area))
        } else {
            None
        },
    }
}

/// The glyph and the color that show the health of `container`.
pub fn get_health_status(container: &ContainerRecord) -> (indicator: (&'static str, Color))
    ensures
        indicator.0@ == health_glyph(container@.health()),
        indicator.1 == health_color(container@.health()),
{
    match container.health() {
        Health::Healthy => ("●", Color::Green),
        Health::Unhealthy => ("●", Color::Red),
        Health::Starting => ("◐", Color::Yellow),
        Health::Neutral => ("", Color::Gray),
    }
}

/// The color in which `state` is written.
pub fn get_state_color(state: &str) -> (color: Color)
    ensures
        color == state_color(state@),
{
    if same(state, "running") {
        Color::Green
    } else if same(state, "exited") {
        Color::Red
    } else if same(state, "paused") {
        Color::Yellow
    } else {
        Color::Gray
    }
}

/// The row of `container` in the list.
pub fn render_row(container: &ContainerRecord) -> (line: Line)
    ensures
        line@ == row(container@),
{
    let state = container.state_text();
    let (glyph, glyph_color) = get_health_status(container);
    let spans = vec![
        Span { content: pad_right(container.display_name(), NAME_WIDTH), style: Style::strong(Color::White) },
        Span { content: pad_right(glyph, HEALTH_WIDTH), style: Style::strong(glyph_color) },
        Span { content: pad_right(container.short_id(), ID_WIDTH), style: Style::colored(Color::DarkGray) },
        Span { content: pad_right(state, STATE_WIDTH), style: Style::colored(get_state_color(state)) },
        Span::styled(container.image_text(), Style::colored(Color::Gray)),
    ];
    let line = Line { spans };
    assert(line@ =~= row(container@));
    line
}

/// The header: see `header`.
pub fn render_header(app: &App, area: Area) -> (panel: Panel)
    ensures
        panel@ == header(app@, area),
{
    let mut title = String::from_str("Docker Container Manager - ");
    match app.status_message() {
        Some(message) => {
            title.append(message);
        },
        None => {
            append_decimal(&mut title, app.containers().len());
            title.append(" containers");
        },
    }
    let panel = Panel {
        area,
        title: None,
        style: Style::strong(Color::Cyan),
        border_style: Style::plain(),
        alignment: Alignment::Left,
        lines: vec![Line::single(Span { content: title, style: Style::plain() })],
        clears: false,
    };
    assert(panel@.lines =~= header(app@, area).lines);
    panel
}

/// The body: a placeholder while there are no containers, else one row
/// for each container, with the cursor's row marked. See `body`.
pub fn render_container_list(app: &App, area: Area) -> (result: Body)
    ensures
        result@ == body(app@, area),
{
    let containers = app.containers();
    if containers.len() == 0 {
        let panel = Panel {
            area,
            title: Some(String::from_str("Containers")),
            style: Style::colored(Color::Gray),
            border_style: Style::plain(),
            alignment: Alignment::Center,
            lines: vec![
                Line::single(
                    Span::raw("No containers found. Start some containers to see them here."),
                ),
            ],
            clears: false,
        };
        assert(panel@.lines =~= body(app@, area)->Placeholder_0.lines);
        return Body::Placeholder(panel);
    }
    let mut items: Vec<Line> = Vec::new();
    let mut i: usize = 0;
    while i < containers.len()
        invariant
            i <= containers.len(),
            items.len() == i,
            forall|k: int| 0 <= k < i ==> items@[k]@ == row(#[trigger] containers@[k]@),
        decreases containers.len() - i,
    {
        items.push(render_row(&containers[i]));
        i += 1;
    }
    let list = ListPanel {
        area,
        title: String::from_str("Containers"),
        rows: items,
        selected: app.selection(),
        highlight_style: Style::highlight(Color::DarkGray),
        highlight_symbol: String::from_str(">> "),
    };
    assert(list@.rows =~= rows(app@.containers));
    Body::Containers(list)
}

/// The footer: the legend of the keys. See `footer`.
pub fn render_footer(area: Area) -> (panel: Panel)
    ensures
        panel@ == footer(area),
{
    let help = vec![
        Span::raw("↑/↓: Navigate  "),
        Span::styled("s", Style::colored(Color::Green)),
        Span::raw(": Start  "),
        Span::styled("x", Style::colored(Color::Red)),
        Span::raw(": Stop  "),
        Span::styled("r", Style::colored(Color::Yellow)),
        Span::raw(": Restart  "),
        Span::styled("d", Style::colored(Color::Red)),
        Span::raw(": Delete  "),
        Span::styled("R", Style::colored(Color::Cyan)),
        Span::raw(": Refresh  "),
        Span::styled("q", Style::colored(Color::Cyan)),
        Span::raw(": Quit  "),
        Span::styled("●", Style::colored(Color::Green)),
        Span::raw(": Healthy  "),
        Span::styled("●", Style::colored(Color::Red)),
        Span::raw(": Unhealthy"),
    ];
    let line = Line { spans: help };
    assert(line@ =~= legend());
    let panel = Panel {
        area,
        title: None,
        style: Style::plain(),
        border_style: Style::plain(),
        alignment: Alignment::Left,
        lines: vec![line],
        clears: false,
    };
    assert(panel@.lines =~= footer(area).lines);
    panel
}

/// The name of the container under the cursor, as the confirmation dialog
/// shows it.
pub fn get_pending_name(app: &App) -> (name: &str)
    ensures
        name@ == pending_name(app@),
{
    let containers = app.containers();
    match app.selection() {
        Some(i) => if i < containers.len() {
            containers[i].display_name()
        } else {
            "unknown"
        },
        None => "unknown",
    }
}

/// The confirmation dialog: the question, the name of the container under
/// the cursor and the keys that answer, in a box that wipes out what lies
/// beneath it. See `modal`.
pub fn render_delete_confirmation(app: &App, area: Area) -> (panel: Panel)
    ensures
        panel@ == modal(app@, area),
{
    let text = vec![
        Line::empty(),
        Line::single(Span::styled("Delete Container?", Style::strong(Color::Red))),
        Line::empty(),
        Line::single(Span::styled(get_pending_name(app), Style::colored(Color::Yellow))),
        Line::empty(),
        Line::single(Span::raw("Press 'y' to confirm, 'n' to cancel")),
    ];
    let panel = Panel {
        area,
        title: None,
        style: Style::plain(),
        border_style: Style::colored(Color::Red),
        alignment: Alignment::Center,
        lines: text,
        clears: true,
    };
    assert(panel@.lines =~= modal(app@, area).lines);
    panel
}

/// The screen for the state `app`, with the parts standing where the
/// layout has put them. `modal_area` is read only while a delete waits for
/// confirmation.
pub fn compose(
    app: &App,
    header_area: Area,
    body_area: Area,
    footer_area: Area,
    modal_area: Area,
) -> (tree: RenderTree)
    ensures
        tree@ == screen(app@, header_area, body_area, footer_area, modal_area),
{
    RenderTree {
        header: render_header(app, header_area),
        body: render_container_list(app, body_area),
        footer: render_footer(footer_area),
        modal: if app.show_delete_confirm() {
            Some(render_delete_confirmation(app, modal_area))
        } else {
            None
        },
    }
}

/// The area of the confirmation dialog in a tree, or `fallback` where the
/// tree has none.
pub open spec fn modal_area_or(tree: RenderTreeView, fallback: Area) -> Area {
    match tree.modal {
        Some(panel) => panel.area,
        None => fallback,
    }
}

/// The screen for the state `app` on a terminal of the size `area`.
///
/// The layout engine is asked to divide `area` from top to bottom by
/// `framing(BAR_HEIGHT)`; header, body and footer stand in the first,
/// second and third part of its answer (`framed`). The dialog stands in
/// the middle column of the middle row of `area`, at `MODAL_PERCENT_X` by
/// `MODAL_PERCENT_Y` hundredths (`centered`). How large the parts come out
/// is the engine's answer. What they hold is `screen` for those areas,
/// every part lies within `area`, and header, body and footer reach from
/// the left edge of `area` to its right edge.
pub fn render(area: Area, app: &App) -> (tree: RenderTree)
    ensures
        tree@ == screen(
            app@,
            tree@.header.area,
            tree@.body.area(),
            tree@.footer.area,
            modal_area_or(tree@, area),
        ),
        spans_across(Direction::Vertical, area, tree@.header.area),
        spans_across(Direction::Vertical, area, tree@.body.area()),
        spans_across(Direction::Vertical, area, tree@.footer.area),
        within(area, tree@.header.area),
        within(area, tree@.body.area()),
        within(area, tree@.footer.area),
        within(area, modal_area_or(tree@, area)),
        framed(BAR_HEIGHT, area, tree@.header.area, tree@.body.area(), tree@.footer.area),
        tree@.modal matches Some(panel) ==> centered(
            MODAL_PERCENT_X,
            MODAL_PERCENT_Y,
            area,
            panel.area,
        ),
{
    let chunks = split(Direction::Vertical, &framing_constraints(BAR_HEIGHT), area);
    assert(divided(Direction::Vertical, framing(BAR_HEIGHT), area, chunks@));
    let modal_area = if app.show_delete_confirm() {
        centered_rect(MODAL_PERCENT_X, MODAL_PERCENT_Y, area)
    } else {
        area
    };
    compose(app, chunks[0], chunks[1], chunks[2], modal_area)
}

} // verus!
