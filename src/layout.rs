use tui::layout::{Constraint, Direction, Layout, Rect};
use vstd::prelude::*;

verus! {

/// A rectangle of terminal cells: its top-left corner and its size.
#[derive(Clone, Copy, Debug, PartialEq, Eq, Structural)]
pub struct Area {
    pub x: u16,
    pub y: u16,
    pub width: u16,
    pub height: u16,
}

/// The three panes of the player's screen.
#[derive(Clone, Copy, Debug, PartialEq, Eq, Structural)]
pub struct Panes {
    /// The left column, for the list of files.
    pub files: Area,
    /// The top of the right column, for the status text.
    pub status: Area,
    /// The rest of the right column.
    pub body: Area,
}

/// The share of the width given to the file list, in percent.
pub const FILES_PERCENT: u16 = 30;

/// The share of the width given to the right column, in percent.
pub const RIGHT_PERCENT: u16 = 70;

/// The share of the right column's height given to the status text, in percent.
pub const STATUS_PERCENT: u16 = 20;

/// The share of the right column's height given to the body, in percent.
pub const BODY_PERCENT: u16 = 80;

/// The blank border kept around each split, in cells.
pub const MARGIN: u16 = 1;

/// What the layout solver makes of `area` cut along one direction, inside a
/// margin, into two pieces whose percentages add up to a hundred.
pub uninterp spec fn split_of(area: Area, horizontal: bool, margin: u16, percents: Seq<u16>) -> Seq<
    Area,
>;

/// `area` ends inside the terminal's coordinate range, and a cut of it by
/// `percent` stays in that range.
pub open spec fn splittable(area: Area, percent: u16) -> bool {
    &&& area.x + area.width <= u16::MAX
    &&& area.y + area.height <= u16::MAX
    &&& percent * area.width <= u16::MAX
    &&& percent * area.height <= u16::MAX
}

/// Relies on tui's `Layout::split`: one piece for each constraint. The
/// solver behind it walks hash maps that each process seeds, and where
/// several answers are equally good the one it returns depends on that
/// order. With two shares that add up to a hundred there is only one best
/// answer: the two wanted sizes add up to the whole, up to float rounding. A
/// share that comes out whole is exact in `f64`, and one that does not lies
/// at least a hundredth away from a whole number, so cutting it to `u16`
/// gives the same size whichever way the solver rounds. The result then
/// depends on the arguments alone. The solver multiplies each percentage by
/// the width or height in `u16`, and doubles the margin in `u16`: `requires`
/// keeps both in range.
#[verifier::external_body]
fn split_area(area: Area, horizontal: bool, margin: u16, percents: &Vec<u16>) -> (r: Vec<Area>)
    requires
        margin <= u16::MAX / 2,
        percents@.len() == 2,
        percents@[0] + percents@[1] == 100,
        forall|i: int| 0 <= i < percents@.len() ==> splittable(area, #[trigger] percents@[i]),
    ensures
        r@ == split_of(area, horizontal, margin, percents@),
        r@.len() == percents@.len(),
{
    let direction = if horizontal { Direction::Horizontal } else { Direction::Vertical };
    let constraints: Vec<Constraint> = percents.iter().map(|p| Constraint::Percentage(*p)).collect();
    let rect = Rect { x: area.x, y: area.y, width: area.width, height: area.height };
    let pieces = Layout::default().direction(direction).margin(margin).constraints(constraints).split(rect);
    pieces.iter().map(|c| Area { x: c.x, y: c.y, width: c.width, height: c.height }).collect()
}

/// The screen's panes for a terminal of the given area: a left column of
/// `FILES_PERCENT` of the width and a right column of `RIGHT_PERCENT`, the
/// latter cut into a status strip of `STATUS_PERCENT` of its height and a
/// body of `BODY_PERCENT` below it. `None` where
/// the area is too large for the solver to cut.
pub open spec fn panes_of(area: Area) -> Option<Panes> {
    let columns = split_of(area, true, MARGIN, seq![FILES_PERCENT, RIGHT_PERCENT]);
    let right = columns[1];
    let rows = split_of(right, false, MARGIN, seq![STATUS_PERCENT, BODY_PERCENT]);
    if !splittable(area, RIGHT_PERCENT) || !splittable(right, BODY_PERCENT) {
        None
    } else {
        Some(Panes { files: columns[0], status: rows[0], body: rows[1] })
    }
}

fn fits_split(area: Area, percent: u16) -> (r: bool)
    ensures
        r == splittable(area, percent),
{
    let p = percent as u32;
    let w = area.width as u32;
    let h = area.height as u32;
    assert(p * w <= 0xffff * 0xffff && p * h <= 0xffff * 0xffff) by (nonlinear_arith)
        requires
            p <= 0xffff,
            w <= 0xffff,
            h <= 0xffff,
    ;
    area.x as u32 + w <= 0xffff && area.y as u32 + h <= 0xffff && p * w <= 0xffff && p * h <= 0xffff
}

/// A cut that stays in range for one percentage stays in range for a
/// smaller one.
proof fn lemma_splittable_smaller(area: Area, small: u16, large: u16)
    requires
        small <= large,
        splittable(area, large),
    ensures
        splittable(area, small),
{
    assert(small * area.width <= large * area.width && small * area.height <= large * area.height)
        by (nonlinear_arith)
        requires
            small <= large,
    ;
}

/// Lays out the screen's three panes in `area`.
pub fn panes(area: Area) -> (r: Option<Panes>)
    ensures
        r == panes_of(area),
{
    if !fits_split(area, RIGHT_PERCENT) {
        return None;
    }
    let column_percents: Vec<u16> = vec![FILES_PERCENT, RIGHT_PERCENT];
    assert(column_percents@ =~= seq![FILES_PERCENT, RIGHT_PERCENT]);
    proof {
        lemma_splittable_smaller(area, FILES_PERCENT, RIGHT_PERCENT);
    }
    let columns = split_area(area, true, MARGIN, &column_percents);
    let right = columns[1];
    if !fits_split(right, BODY_PERCENT) {
        return None;
    }
    let row_percents: Vec<u16> = vec![STATUS_PERCENT, BODY_PERCENT];
    assert(row_percents@ =~= seq![STATUS_PERCENT, BODY_PERCENT]);
    proof {
        lemma_splittable_smaller(right, STATUS_PERCENT, BODY_PERCENT);
    }
    let rows = split_area(right, false, MARGIN, &row_percents);
    Some(Panes { files: columns[0], status: rows[0], body: rows[1] })
}

} // verus!
