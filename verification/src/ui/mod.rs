//! What each pane of the interface shows, computed as plain text and
//! styles; the terminal front end draws it.

pub mod breadcrumb;
pub mod browser;
pub mod details;
pub mod footer;
pub mod menu;

use vstd::prelude::*;
use crate::style::Style;
use ratatui::layout as rl;

verus! {

/// A rectangle of terminal cells.
#[derive(Debug, Clone, Copy, PartialEq, Eq, Structural, Default)]
pub struct Rect {
    pub x: u16,
    pub y: u16,
    pub width: u16,
    pub height: u16,
}

/// The direction in which an area is split.
#[derive(Debug, Clone, Copy, PartialEq, Eq, Structural)]
pub enum Direction {
    Horizontal,
    Vertical,
}

/// A size rule for one part of a split area.
#[derive(Debug, Clone, Copy, PartialEq, Eq, Structural)]
pub enum Constraint {
    /// Exactly this many cells.
    Length(u16),
    /// At least this many cells.
    Min(u16),
    /// This percentage of the area.
    Percentage(u16),
}

/// `r` lies inside `area`.
pub open spec fn within(r: Rect, area: Rect) -> bool {
    &&& area.x <= r.x
    &&& r.x + r.width <= area.x + area.width
    &&& area.y <= r.y
    &&& r.y + r.height <= area.y + area.height
}

/// `r` is a slice of `area` cut along `direction`: it spans the whole of
/// `area` across the cut and lies inside it along the cut.
pub open spec fn slice_of(r: Rect, area: Rect, direction: Direction) -> bool {
    &&& within(r, area)
    &&& match direction {
        Direction::Vertical => r.x == area.x && r.width == area.width,
        Direction::Horizontal => r.y == area.y && r.height == area.height,
    }
}

/// `a` ends before `b` begins along `direction`.
pub open spec fn comes_before(a: Rect, b: Rect, direction: Direction) -> bool {
    match direction {
        Direction::Vertical => a.y + a.height <= b.y,
        Direction::Horizontal => a.x + a.width <= b.x,
    }
}

/// Where `r` begins along `direction`.
pub open spec fn start_along(r: Rect, direction: Direction) -> int {
    match direction {
        Direction::Vertical => r.y as int,
        Direction::Horizontal => r.x as int,
    }
}

/// The size of `r` along `direction`.
pub open spec fn extent_along(r: Rect, direction: Direction) -> int {
    match direction {
        Direction::Vertical => r.height as int,
        Direction::Horizontal => r.width as int,
    }
}

/// The cells that the lengths and minimums of `cs` ask for together.
pub open spec fn fixed_total(cs: Seq<Constraint>) -> int
    decreases cs.len(),
{
    if cs.len() == 0 {
        0
    } else {
        fixed_total(cs.drop_last()) + match cs.last() {
            Constraint::Length(n) => n as int,
            Constraint::Min(n) => n as int,
            Constraint::Percentage(_) => 0,
        }
    }
}

/// Whether `cs` holds a minimum, which grows to take up the space left.
pub open spec fn has_min(cs: Seq<Constraint>) -> bool {
    exists|i: int| 0 <= i < cs.len() && #[trigger] cs[i] is Min
}

/// Calls `ratatui::layout::Layout::new(direction, constraints).split(area)`.
/// What is claimed holds of every outcome: one rectangle per constraint,
/// each a slice of `area` along `direction` (the solver keeps every edge
/// between the area's edges, and the other axis is copied from `area`),
/// in order and without overlap (each segment's ends are ordered and the
/// gaps between segments are held at size zero by constraints that none
/// outweighs; each edge is rounded on its own, which keeps the order).
/// When the area's far edge fits in `u16`, the parts also tile it along
/// `direction`: the first starts at its start and each next one where the
/// previous one ends (the gap before the first is held at zero just below
/// required strength, the others as above), and when a minimum is among
/// the constraints the last ends at its end (a minimum grows toward the
/// whole area more strongly than the space after the last part does). When
/// the lengths and minimums together fit in the area, every length is met
/// exactly: a length outweighs percentages and growth, and a unit taken
/// from it could serve only one of them.
/// Not claimed: the other sizes the solver picks, which may depend on the
/// order in which it walks its hash maps when constraints conflict. The solver's
/// `expect` panics only when it cannot add a constraint; no such case for
/// lengths, minimums and percentages is known, and none is excluded.
#[verifier::external_body]
fn split_area(area: Rect, direction: Direction, constraints: &Vec<Constraint>) -> (res: Vec<Rect>)
    ensures
        res@.len() == constraints@.len(),
        forall|i: int| 0 <= i < res@.len() ==> slice_of(#[trigger] res@[i], area, direction),
        forall|i: int, j: int|
            0 <= i < j < res@.len() ==> comes_before(#[trigger] res@[i], #[trigger] res@[j], direction),
        start_along(area, direction) + extent_along(area, direction) <= u16::MAX ==> {
            &&& res@.len() > 0 ==> start_along(res@[0], direction) == start_along(area, direction)
            &&& forall|i: int, j: int|
                0 <= i && j == i + 1 && j < res@.len() ==> start_along(#[trigger] res@[i], direction)
                    + extent_along(res@[i], direction) == start_along(#[trigger] res@[j], direction)
            &&& res@.len() > 0 && has_min(constraints@) ==> start_along(res@.last(), direction)
                + extent_along(res@.last(), direction) == start_along(area, direction)
                + extent_along(area, direction)
            &&& fixed_total(constraints@) <= extent_along(area, direction) ==> forall|i: int|
                0 <= i < res@.len() ==> (constraints@[i] matches Constraint::Length(n) ==> extent_along(
                    #[trigger] res@[i],
                    direction,
                ) == n)
        },
{
    let cs: Vec<rl::Constraint> = constraints.iter().map(|c| match *c {
        Constraint::Length(n) => rl::Constraint::Length(n),
        Constraint::Min(n) => rl::Constraint::Min(n),
        Constraint::Percentage(n) => rl::Constraint::Percentage(n),
    }).collect();
    let d = match direction { Direction::Horizontal => rl::Direction::Horizontal, Direction::Vertical => rl::Direction::Vertical };
    let a = rl::Rect { x: area.x, y: area.y, width: area.width, height: area.height };
    rl::Layout::new(d, cs).split(a).iter().map(|r| Rect { x: r.x, y: r.y, width: r.width, height: r.height }).collect()
}

/// The panes of the screen.
#[derive(Debug, Clone, Copy, PartialEq, Eq, Structural)]
pub struct Areas {
    pub breadcrumb: Rect,
    pub list: Rect,
    pub details: Rect,
    pub footer: Rect,
}

/// Splits the screen into its panes: a breadcrumb line, a blank line, the
/// body split into the list (42%), a two-cell gutter and the details, and a
/// footer line. The breadcrumb and footer span the screen's width; the list
/// and details share the body's rows; every pane lies inside the screen;
/// the breadcrumb is above the body and the footer below it, the list left
/// of the details, and no two panes overlap. On a screen of at least three
/// rows the breadcrumb is its first row, the footer its last, and the body
/// the rows between after one blank row; on a screen at least two cells
/// wide the list starts at the left edge, the details end at the right
/// edge, and two cells separate them.
pub fn layout(area: Rect) -> (res: Areas)
    ensures
        area.y + area.height <= u16::MAX && area.height >= 3 ==> {
            &&& res.breadcrumb == (Rect { x: area.x, y: area.y, width: area.width, height: 1 })
            &&& res.footer == (Rect {
                x: area.x,
                y: (area.y + area.height - 1) as u16,
                width: area.width,
                height: 1,
            })
            &&& res.list.y == area.y + 2
            &&& res.list.height == area.height - 3
        },
        area.x + area.width <= u16::MAX && area.width >= 2 ==> {
            &&& res.list.x == area.x
            &&& res.details.x == res.list.x + res.list.width + 2
            &&& res.details.x + res.details.width == area.x + area.width
        },
        slice_of(res.breadcrumb, area, Direction::Vertical),
        slice_of(res.footer, area, Direction::Vertical),
        within(res.list, area),
        within(res.details, area),
        res.list.y == res.details.y,
        res.list.height == res.details.height,
        res.breadcrumb.y + res.breadcrumb.height <= res.list.y,
        res.list.y + res.list.height <= res.footer.y,
        res.list.x + res.list.width <= res.details.x,
{
    let mut rows_c: Vec<Constraint> = Vec::new();
    rows_c.push(Constraint::Length(1));
    rows_c.push(Constraint::Length(1));
    rows_c.push(Constraint::Min(0));
    rows_c.push(Constraint::Length(1));
    let rows = split_area(area, Direction::Vertical, &rows_c);
    let mut cols_c: Vec<Constraint> = Vec::new();
    cols_c.push(Constraint::Percentage(42));
    cols_c.push(Constraint::Length(2));
    cols_c.push(Constraint::Min(0));
    let body = rows[2];
    let cols = split_area(body, Direction::Horizontal, &cols_c);
    proof {
        assert(slice_of(rows@[0], area, Direction::Vertical));
        assert(slice_of(rows@[2], area, Direction::Vertical));
        assert(slice_of(rows@[3], area, Direction::Vertical));
        assert(slice_of(cols@[0], body, Direction::Horizontal));
        assert(slice_of(cols@[2], body, Direction::Horizontal));
        assert(comes_before(rows@[0], rows@[2], Direction::Vertical));
        assert(comes_before(rows@[2], rows@[3], Direction::Vertical));
        assert(comes_before(cols@[0], cols@[2], Direction::Horizontal));
        assert(rows_c@[2] is Min);
        assert(has_min(rows_c@));
        assert(cols_c@[2] is Min);
        assert(has_min(cols_c@));
        reveal_with_fuel(fixed_total, 5);
        assert(fixed_total(rows_c@) == 3);
        assert(fixed_total(cols_c@) == 2);
        if area.y + area.height <= u16::MAX && area.height >= 3 {
            assert(start_along(rows@[0], Direction::Vertical) + extent_along(rows@[0], Direction::Vertical) == start_along(rows@[1], Direction::Vertical));
            assert(start_along(rows@[1], Direction::Vertical) + extent_along(rows@[1], Direction::Vertical) == start_along(rows@[2], Direction::Vertical));
            assert(start_along(rows@[2], Direction::Vertical) + extent_along(rows@[2], Direction::Vertical) == start_along(rows@[3], Direction::Vertical));
            assert(extent_along(rows@[0], Direction::Vertical) == 1);
            assert(extent_along(rows@[1], Direction::Vertical) == 1);
            assert(extent_along(rows@[3], Direction::Vertical) == 1);
        }
        if area.x + area.width <= u16::MAX && area.width >= 2 {
            assert(start_along(cols@[0], Direction::Horizontal) + extent_along(cols@[0], Direction::Horizontal) == start_along(cols@[1], Direction::Horizontal));
            assert(start_along(cols@[1], Direction::Horizontal) + extent_along(cols@[1], Direction::Horizontal) == start_along(cols@[2], Direction::Horizontal));
            assert(extent_along(cols@[1], Direction::Horizontal) == 2);
        }
    }
    Areas { breadcrumb: rows[0], list: cols[0], details: cols[2], footer: rows[3] }
}

/// A piece of text drawn in one style.
#[derive(Debug, Clone)]
pub struct StyledSpan {
    pub text: String,
    pub style: Style,
}

impl View for StyledSpan {
    type V = (Seq<char>, Style);

    open spec fn view(&self) -> (Seq<char>, Style) {
        (self.text@, self.style)
    }
}

/// The views of a list of spans.
pub open spec fn span_views(v: Seq<StyledSpan>) -> Seq<(Seq<char>, Style)> {
    v.map_values(|s: StyledSpan| s@)
}

/// A span of `text` in `style`.
pub fn span(text: String, style: Style) -> (res: StyledSpan)
    ensures
        res@ == (text@, style),
{
    StyledSpan { text, style }
}

} // verus!
