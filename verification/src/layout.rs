//! Where the four panels go: three columns of 20, 50 and 30 percent of the
//! width, the right one cut into two rows of equal share.
//!
//! The split itself is `ratatui`'s. This module fixes what is asked of it,
//! states where its cuts fall, and assigns the parts to the panels.

use vstd::pervasive::unreached;
use vstd::prelude::*;

verus! {

/// A rectangle of terminal cells: the top left corner and the size.
#[derive(Clone, Copy, Debug, PartialEq, Eq, Structural)]
pub struct Area {
    pub x: u16,
    pub y: u16,
    pub width: u16,
    pub height: u16,
}

/// The direction along which an area is cut into parts.
#[derive(Clone, Copy, Debug, PartialEq, Eq, Structural)]
pub enum Direction {
    /// Parts side by side, from left to right.
    Horizontal,
    /// Parts one below the other, from top to bottom.
    Vertical,
}

/// The areas of the four panels.
#[derive(Clone, Copy, Debug, PartialEq, Eq, Structural)]
pub struct PanelAreas {
    /// The language list, in the left column.
    pub language: Area,
    /// The list of `.txt` files, in the middle column.
    pub files: Area,
    /// The architecture list, in the upper half of the right column.
    pub architecture: Area,
    /// The archive name, in the lower half of the right column.
    pub zip_name: Area,
}

/// `part` reaches across `area` in the direction that is not cut: a part of
/// a horizontal split has the rows of the area, a part of a vertical split
/// its columns.
pub open spec fn spans(part: Area, area: Area, direction: Direction) -> bool {
    match direction {
        Direction::Horizontal => part.y == area.y && part.height == area.height,
        Direction::Vertical => part.x == area.x && part.width == area.width,
    }
}

/// The first cell of `area` along `direction`: its left column, or its top
/// row.
pub open spec fn lead(area: Area, direction: Direction) -> int {
    match direction {
        Direction::Horizontal => area.x as int,
        Direction::Vertical => area.y as int,
    }
}

/// The number of cells of `area` along `direction` that a split shares out:
/// its width, or its height, without what would lie beyond coordinate
/// 65535.
pub open spec fn reach(area: Area, direction: Direction) -> int {
    let length: int = match direction {
        Direction::Horizontal => area.width as int,
        Direction::Vertical => area.height as int,
    };
    if lead(area, direction) + length <= u16::MAX {
        length
    } else {
        u16::MAX - lead(area, direction)
    }
}

/// How many of `reach` cells lie before the cut at `percent` percent:
/// `reach * percent / 100`, rounded to the nearest cell, a half upward.
pub open spec fn cut(reach: int, percent: int) -> int {
    (reach * percent + 50) / 100
}

/// The sum of the first `n` of `shares`.
pub open spec fn shares_before(shares: Seq<u16>, n: int) -> int
    decreases n,
{
    if n <= 0 {
        0
    } else {
        shares_before(shares, n - 1) + shares[n - 1]
    }
}

/// `part` is the piece of `area` between the cells `from` and `to`, counted
/// along `direction` from the first cell of the area; across, it is as the
/// area.
pub open spec fn runs(part: Area, area: Area, direction: Direction, from: int, to: int) -> bool {
    &&& spans(part, area, direction)
    &&& match direction {
        Direction::Horizontal => part.x == area.x + from && part.width == to - from,
        Direction::Vertical => part.y == area.y + from && part.height == to - from,
    }
}

/// `part` has this corner and this size.
pub open spec fn occupies(part: Area, x: int, y: int, width: int, height: int) -> bool {
    part.x == x && part.y == y && part.width == width && part.height == height
}

/// The shares of the three columns, in percent of the width.
pub open spec fn column_shares() -> Seq<u16> {
    seq![20u16, 50u16, 30u16]
}

/// The shares of the two rows of the right column, in percent of its height.
pub open spec fn row_shares() -> Seq<u16> {
    seq![50u16, 50u16]
}

/// Calls `ratatui::layout::Layout::split` on `area`, with the given
/// direction, one `Constraint::Percentage` for each entry of `percentages`,
/// and `ratatui`'s defaults for the rest (no margin, no spacing, parts placed
/// from the start of the area).
///
/// Trusted, not proved. The contract claims of `split`:
/// - One part comes back for each percentage, and each part has the position
///   and size of `area` in the direction that is not cut.
/// - Where the percentages sum to at most 100, part `i` begins at the cut for
///   the sum of the percentages before it and ends at the cut for that sum
///   with its own. This is what the constraints of `split` have as their one
///   best solution: the ends of the area are required, each part asks for
///   its percentage of the area's length, the gap before the first part and
///   the gaps between parts ask to be empty, and all of these can be met at
///   once; what pulls elsewhere is weaker by orders of magnitude. `split`
///   then rounds each position to the nearest cell, a half upward.
/// - Where the percentages sum to more than 100 they compete, and `ratatui`
///   calls the outcome indeterminate: nothing is claimed of the cuts.
#[verifier::external_body]
fn split(area: Area, direction: Direction, percentages: &Vec<u16>) -> (parts: Vec<Area>)
    ensures
        parts@.len() == percentages@.len(),
        forall|i: int| 0 <= i < parts@.len() ==> spans(#[trigger] parts@[i], area, direction),
        shares_before(percentages@, percentages@.len() as int) <= 100 ==> forall|i: int|
            0 <= i < parts@.len() ==> runs(
                #[trigger] parts@[i],
                area,
                direction,
                cut(reach(area, direction), shares_before(percentages@, i)),
                cut(reach(area, direction), shares_before(percentages@, i + 1)),
            ),
{
    let direction = match direction {
        Direction::Horizontal => ratatui::layout::Direction::Horizontal,
        Direction::Vertical => ratatui::layout::Direction::Vertical,
    };
    let constraints = ratatui::layout::Constraint::from_percentages(percentages.iter().copied());
    let Area { x, y, width, height } = area;
    let rect = ratatui::layout::Rect { x, y, width, height };
    let parts = ratatui::layout::Layout::new(direction, constraints).split(rect);
    parts.iter().map(|r| Area { x: r.x, y: r.y, width: r.width, height: r.height }).collect()
}

/// The percentages of the three columns.
pub fn column_percentages() -> (shares: Vec<u16>)
    ensures
        shares@ == column_shares(),
{
    vec![20, 50, 30]
}

/// The percentages of the two rows of the right column.
pub fn row_percentages() -> (shares: Vec<u16>)
    ensures
        shares@ == row_shares(),
{
    vec![50, 50]
}

/// Assigns the panels to the parts of the two splits: language, files and
/// the right column from left to right, architecture above the archive name
/// within the rows of the right column. `None` unless there are exactly
/// three columns and two rows.
pub fn place_panels(columns: &Vec<Area>, rows: &Vec<Area>) -> (panels: Option<PanelAreas>)
    ensures
        panels == if columns@.len() == 3 && rows@.len() == 2 {
            Some(
                (PanelAreas {
                    language: columns@[0],
                    files: columns@[1],
                    architecture: rows@[0],
                    zip_name: rows@[1],
                }),
            )
        } else {
            None
        },
{
    if columns.len() == 3 && rows.len() == 2 {
        Some(
            PanelAreas {
                language: columns[0],
                files: columns[1],
                architecture: rows[0],
                zip_name: rows[1],
            },
        )
    } else {
        None
    }
}

/// Lays the four panels out on `area`: cuts it into the three columns, cuts
/// the right column into the two rows, and assigns the panels.
///
/// With `w` and `h` the width and height of `area` (without what would lie
/// beyond coordinate 65535), the columns end 20, 70 and 100 percent into
/// `w`, and the rows of the right column 50 and 100 percent into `h`, each
/// cut rounded to the nearest cell, a half upward. The language and file
/// panels have the full height of `area`.
pub fn panel_areas(area: Area) -> (panels: PanelAreas)
    ensures
        ({
            let w = reach(area, Direction::Horizontal);
            let h = reach(area, Direction::Vertical);
            &&& occupies(panels.language, area.x as int, area.y as int, cut(w, 20), area.height as int)
            &&& occupies(
                panels.files,
                area.x + cut(w, 20),
                area.y as int,
                cut(w, 70) - cut(w, 20),
                area.height as int,
            )
            &&& occupies(
                panels.architecture,
                area.x + cut(w, 70),
                area.y as int,
                w - cut(w, 70),
                cut(h, 50),
            )
            &&& occupies(
                panels.zip_name,
                area.x + cut(w, 70),
                area.y + cut(h, 50),
                w - cut(w, 70),
                h - cut(h, 50),
            )
        }),
{
    let column_shares = column_percentages();
    let row_shares = row_percentages();
    proof {
        reveal_with_fuel(shares_before, 4);
        assert(shares_before(column_shares@, 1) == 20);
        assert(shares_before(column_shares@, 2) == 70);
        assert(shares_before(column_shares@, 3) == 100);
        assert(shares_before(row_shares@, 1) == 50);
        assert(shares_before(row_shares@, 2) == 100);
    }
    let columns = split(area, Direction::Horizontal, &column_shares);
    let right = columns[2];
    assert(reach(right, Direction::Vertical) == reach(area, Direction::Vertical));
    let rows = split(right, Direction::Vertical, &row_shares);
    match place_panels(&columns, &rows) {
        Some(panels) => panels,
        None => unreached(),
    }
}

} // verus!
