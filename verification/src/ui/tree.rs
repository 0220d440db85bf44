//! What is to be drawn: text in spans and lines, boxed in panels that are
//! placed on the screen.

use crate::ui::layout::Area;
use crate::ui::style::Style;
use vstd::prelude::*;

verus! {

/// A run of text in one style.
#[derive(Clone, Debug, PartialEq, Eq)]
pub struct Span {
    pub content: String,
    pub style: Style,
}

/// The mathematical value of a `Span`.
pub struct SpanView {
    pub content: Seq<char>,
    pub style: Style,
}

impl View for Span {
    type V = SpanView;

    open spec fn view(&self) -> SpanView {
        SpanView { content: self.content@, style: self.style }
    }
}

impl DeepView for Span {
    type V = SpanView;

    open spec fn deep_view(&self) -> SpanView {
        self.view()
    }
}

impl Span {
    /// `text` in the style `style`.
    pub fn styled(text: &str, style: Style) -> (span: Span)
        ensures
            span@ == (SpanView { content: text@, style }),
    {
        Span { content: String::from_str(text), style }
    }

    /// `text` in the terminal's own style.
    pub fn raw(text: &str) -> (span: Span)
        ensures
            span@ == (SpanView { content: text@, style: Style::plain() }),
    {
        Span::styled(text, Style::plain())
    }
}

/// One line of text: its spans from left to right. A line without spans
/// is an empty line.
#[derive(Clone, Debug, PartialEq, Eq)]
pub struct Line {
    pub spans: Vec<Span>,
}

impl View for Line {
    type V = Seq<SpanView>;

    open spec fn view(&self) -> Seq<SpanView> {
        self.spans.deep_view()
    }
}

impl DeepView for Line {
    type V = Seq<SpanView>;

    open spec fn deep_view(&self) -> Seq<SpanView> {
        self.view()
    }
}

impl Line {
    /// The empty line.
    pub fn empty() -> (line: Line)
        ensures
            line@ == Seq::<SpanView>::empty(),
    {
        let line = Line { spans: Vec::new() };
        assert(line@ =~= Seq::<SpanView>::empty());
        line
    }

    /// The line that holds `span` alone.
    pub fn single(span: Span) -> (line: Line)
        ensures
            line@ == seq![span@],
    {
        let mut spans: Vec<Span> = Vec::new();
        spans.push(span);
        let line = Line { spans };
        assert(line@ =~= seq![span@]);
        line
    }
}

/// How the lines of a panel are set within its width.
#[derive(Clone, Copy, Debug, PartialEq, Eq, Structural)]
pub enum Alignment {
    Left,
    Center,
}

/// A bordered box of text.
#[derive(Clone, Debug, PartialEq, Eq)]
pub struct Panel {
    /// Where the box stands.
    pub area: Area,
    /// The title set into the top border, if any.
    pub title: Option<String>,
    /// The style of the text, where a span sets none of its own.
    pub style: Style,
    /// The style of the border.
    pub border_style: Style,
    pub alignment: Alignment,
    pub lines: Vec<Line>,
    /// Whether what lies beneath the box is wiped out before it is drawn.
    pub clears: bool,
}

/// The mathematical value of a `Panel`.
pub struct PanelView {
    pub area: Area,
    pub title: Option<Seq<char>>,
    pub style: Style,
    pub border_style: Style,
    pub alignment: Alignment,
    pub lines: Seq<Seq<SpanView>>,
    pub clears: bool,
}

impl View for Panel {
    type V = PanelView;

    open spec fn view(&self) -> PanelView {
        PanelView {
            area: self.area,
            title: self.title.deep_view(),
            style: self.style,
            border_style: self.border_style,
            alignment: self.alignment,
            lines: self.lines.deep_view(),
            clears: self.clears,
        }
    }
}

/// A bordered list of rows, one of which may be under the cursor.
#[derive(Clone, Debug, PartialEq, Eq)]
pub struct ListPanel {
    pub area: Area,
    pub title: String,
    pub rows: Vec<Line>,
    /// The row under the cursor.
    pub selected: Option<usize>,
    /// The style laid over the row under the cursor.
    pub highlight_style: Style,
    /// The mark set before the row under the cursor.
    pub highlight_symbol: String,
}

/// The mathematical value of a `ListPanel`.
pub struct ListPanelView {
    pub area: Area,
    pub title: Seq<char>,
    pub rows: Seq<Seq<SpanView>>,
    pub selected: Option<nat>,
    pub highlight_style: Style,
    pub highlight_symbol: Seq<char>,
}

impl View for ListPanel {
    type V = ListPanelView;

    open spec fn view(&self) -> ListPanelView {
        ListPanelView {
            area: self.area,
            title: self.title@,
            rows: self.rows.deep_view(),
            selected: match self.selected {
                Some(i) => Some(i as nat),
                None => None,
            },
            highlight_style: self.highlight_style,
            highlight_symbol: self.highlight_symbol@,
        }
    }
}

/// The middle of the screen: a placeholder while there are no
/// containers, else the list of them.
#[derive(Clone, Debug, PartialEq, Eq)]
pub enum Body {
    Placeholder(Panel),
    Containers(ListPanel),
}

/// The mathematical value of a `Body`.
pub enum BodyView {
    Placeholder(PanelView),
    Containers(ListPanelView),
}

impl View for Body {
    type V = BodyView;

    open spec fn view(&self) -> BodyView {
        match self {
            Body::Placeholder(panel) => BodyView::Placeholder(panel@),
            Body::Containers(list) => BodyView::Containers(list@),
        }
    }
}

impl BodyView {
    /// Where the body stands.
    pub open spec fn area(self) -> Area {
        match self {
            BodyView::Placeholder(panel) => panel.area,
            BodyView::Containers(list) => list.area,
        }
    }
}

/// The whole screen: header, body and footer from top to bottom, and over
/// them the confirmation dialog while a delete waits for confirmation.
#[derive(Clone, Debug, PartialEq, Eq)]
pub struct RenderTree {
    pub header: Panel,
    pub body: Body,
    pub footer: Panel,
    pub modal: Option<Panel>,
}

/// The mathematical value of a `RenderTree`.
pub struct RenderTreeView {
    pub header: PanelView,
    pub body: BodyView,
    pub footer: PanelView,
    pub modal: Option<PanelView>,
}

impl View for RenderTree {
    type V = RenderTreeView;

    open spec fn view(&self) -> RenderTreeView {
        RenderTreeView {
            header: self.header@,
            body: self.body@,
            footer: self.footer@,
            modal: match self.modal {
                Some(panel) => Some(panel@),
                None => None,
            },
        }
    }
}

} // verus!
