//! Rectangles of the screen and how the screen is divided among them.

use ratatui::layout as engine;
use vstd::prelude::*;

verus! {

/// A rectangle of terminal cells: its top left corner and its size.
#[derive(Clone, Copy, Debug, PartialEq, Eq, Structural)]
pub struct Area {
    pub x: u16,
    pub y: u16,
    pub width: u16,
    pub height: u16,
}

/// The axis along which an area is divided.
#[derive(Clone, Copy, Debug, PartialEq, Eq, Structural)]
pub enum Direction {
    Horizontal,
    Vertical,
}

/// What is asked of one part of a divided area, along the axis of the
/// division.
#[derive(Clone, Copy, Debug, PartialEq, Eq, Structural)]
pub enum Constraint {
    /// Exactly so many cells.
    Length(u16),
    /// At least so many cells.
    Min(u16),
    /// So many hundredths of the whole.
    Percentage(u16),
}

/// `part` reaches across `whole` on the axis that a division along
/// `direction` leaves alone.
pub open spec fn spans_across(direction: Direction, whole: Area, part: Area) -> bool {
    match direction {
        Direction::Vertical => part.x == whole.x && part.width == whole.width,
        Direction::Horizontal => part.y == whole.y && part.height == whole.height,
    }
}

/// `part` lies within `whole`: it starts no further left and no higher,
/// and ends no further right and no lower.
pub open spec fn within(whole: Area, part: Area) -> bool {
    &&& whole.x <= part.x
    &&& part.x + part.width <= whole.x + whole.width
    &&& whole.y <= part.y
    &&& part.y + part.height <= whole.y + whole.height
}

/// `parts` is an answer of the layout engine to the division of `area`
/// along `direction` by `constraints`. The engine may have more than one
/// answer to one division, so this is a relation: nothing follows from it
/// for the parts of another call.
pub uninterp spec fn divided(
    direction: Direction,
    constraints: Seq<Constraint>,
    area: Area,
    parts: Seq<Area>,
) -> bool;

/// `top`, `middle` and `bottom` are, in this order, the three parts of an
/// answer of the layout engine to the division of `area` from top to bottom
/// by `framing(bar)`.
pub open spec fn framed(bar: u16, area: Area, top: Area, middle: Area, bottom: Area) -> bool {
    exists|parts: Seq<Area>|
        parts.len() == 3 && #[trigger] divided(Direction::Vertical, framing(bar), area, parts)
            && top == parts[0] && middle == parts[1] && bottom == parts[2]
}

/// `inner` is the middle column of the middle row of `r`: the layout
/// engine has divided `r` from top to bottom by `centering(percent_y)`, and
/// the middle part of its answer from left to right by
/// `centering(percent_x)`, and `inner` is the middle part of that answer.
pub open spec fn centered(percent_x: u16, percent_y: u16, r: Area, inner: Area) -> bool {
    exists|rows: Seq<Area>, columns: Seq<Area>|
        rows.len() == 3 && columns.len() == 3 && divided(
            Direction::Vertical,
            centering(percent_y),
            r,
            rows,
        ) && #[trigger] divided(Direction::Horizontal, centering(percent_x), rows[1], columns)
            && inner == columns[1]
}

/// Divides `area` along `direction` into one part for each of
/// `constraints`, in their order.
///
/// This is `ratatui::layout::Layout::split`, on a layout made by
/// `Layout::new` with the given direction and constraints, so without
/// margin and with the default flex and spacing.
/// How the sizes along `direction` come out of its constraint solver is
/// not stated here. The parts are an answer of the engine to this division
/// (`divided`), and of every answer there holds:
/// - there is one part for each constraint;
/// - each part takes its place and size on the other axis from `area`, as
///   the conversion of the solver's answer into rectangles copies them;
/// - each part lies within `area`: the layout requires of the solver, at
///   the strength that the solver documents as never violated, that every
///   edge of a part lies between the two edges of `area` and that no part
///   ends before it starts.
#[verifier::external_body]
pub(crate) fn split(
    direction: Direction,
    constraints: &Vec<Constraint>,
    area: Area,
) -> (parts: Vec<Area>)
    ensures
        divided(direction, constraints@, area, parts@),
        parts@.len() == constraints@.len(),
        forall|i: int| 0 <= i < parts@.len() ==> spans_across(direction, area, #[trigger] parts@[i]),
        forall|i: int| 0 <= i < parts@.len() ==> within(area, #[trigger] parts@[i]),
{
    let to_engine = |c: &Constraint| match *c {
        Constraint::Length(n) => engine::Constraint::Length(n),
        Constraint::Min(n) => engine::Constraint::Min(n),
        Constraint::Percentage(p) => engine::Constraint::Percentage(p),
    };
    let direction = match direction {
        Direction::Horizontal => engine::Direction::Horizontal,
        Direction::Vertical => engine::Direction::Vertical,
    };
    let layout = engine::Layout::new(direction, constraints.iter().map(to_engine));
    let Area { x, y, width, height } = area;
    let parts = layout.split(engine::Rect { x, y, width, height });
    parts.iter().map(|&engine::Rect { x, y, width, height }| Area { x, y, width, height }).collect()
}

/// The three constraints that put a part of `percent` hundredths between
/// two equal parts that share the rest.
pub open spec fn centering(percent: u16) -> Seq<Constraint> {
    seq![
        Constraint::Percentage(((100 - percent) / 2) as u16),
        Constraint::Percentage(percent),
        Constraint::Percentage(((100 - percent) / 2) as u16),
    ]
}

/// The three constraints that put a part that takes what is left between
/// two bars of `bar` cells each.
pub open spec fn framing(bar: u16) -> Seq<Constraint> {
    seq![Constraint::Length(bar), Constraint::Min(0), Constraint::Length(bar)]
}

/// The constraints of `centering`.
pub fn centering_constraints(percent: u16) -> (constraints: Vec<Constraint>)
    requires
        percent <= 100,
    ensures
        constraints@ == centering(percent),
{
    let side = (100 - percent) / 2;
    vec![Constraint::Percentage(side), Constraint::Percentage(percent), Constraint::Percentage(side)]
}

/// The constraints of `framing`.
pub fn framing_constraints(bar: u16) -> (constraints: Vec<Constraint>)
    ensures
        constraints@ == framing(bar),
{
    vec![Constraint::Length(bar), Constraint::Min(0), Constraint::Length(bar)]
}

/// The rectangle in the middle of `r` that is asked to take `percent_x`
/// hundredths of its width and `percent_y` hundredths of its height: `r` is
/// divided from top to bottom by `centering(percent_y)`, and the middle part
/// of that from left to right by `centering(percent_x)`.
///
/// The two divisions are the layout engine's. What is stated is which
/// divisions were asked for and which part of the answers is returned
/// (`centered`), and what holds of every answer: the rectangle lies within
/// `r`.
pub(crate) fn centered_rect(percent_x: u16, percent_y: u16, r: Area) -> (inner: Area)
    requires
        percent_x <= 100,
        percent_y <= 100,
    ensures
        centered(percent_x, percent_y, r, inner),
        within(r, inner),
{
    let rows = split(Direction::Vertical, &centering_constraints(percent_y), r);
    let columns = split(Direction::Horizontal, &centering_constraints(percent_x), rows[1]);
    columns[1]
}

} // verus!
