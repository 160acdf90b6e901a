//! Rectangles of terminal cells, and how the screen is divided into them.
//!
//! The dividing itself is ratatui's: its layout solver splits a rectangle,
//! and its `Block` says how much room a border leaves. Both are called here
//! behind contracts that Verus takes on trust; what the editor builds from
//! them is verified against those contracts.

use ratatui::layout::{Constraint, Direction, Layout, Rect};
use ratatui::widgets::Block;
use vstd::prelude::*;

verus! {

/// A rectangle of terminal cells: its top left corner and its size. It stands
/// for ratatui's `Rect`, field by field.
#[derive(Clone, Copy, Debug, PartialEq, Eq, Structural)]
pub struct Area {
    pub x: u16,
    pub y: u16,
    pub width: u16,
    pub height: u16,
}

/// The direction in which a rectangle is split.
#[derive(Clone, Copy, Debug, PartialEq, Eq, Structural)]
pub enum Axis {
    /// The parts lie side by side.
    Horizontal,
    /// The parts lie one below the other.
    Vertical,
}

/// What is asked of the size of one part of a split. It stands for those of
/// ratatui's `Constraint`s that the editor uses.
#[derive(Clone, Copy, Debug, PartialEq, Eq, Structural)]
pub enum Extent {
    /// At least so many cells.
    Min(u16),
    /// Exactly so many cells.
    Length(u16),
    /// So many hundredths of the rectangle that is split.
    Percentage(u16),
}

impl Area {
    /// The column after the last one of the rectangle, cut off at the largest
    /// coordinate there is.
    pub open spec fn right(self) -> int {
        if self.x + self.width <= u16::MAX {
            self.x + self.width
        } else {
            u16::MAX as int
        }
    }

    /// The row after the last one of the rectangle, cut off at the largest
    /// coordinate there is.
    pub open spec fn bottom(self) -> int {
        if self.y + self.height <= u16::MAX {
            self.y + self.height
        } else {
            u16::MAX as int
        }
    }

    /// `inner` lies within this rectangle.
    pub open spec fn contains(self, inner: Area) -> bool {
        &&& self.x <= inner.x
        &&& inner.x + inner.width <= self.right()
        &&& self.y <= inner.y
        &&& inner.y + inner.height <= self.bottom()
    }

    /// What a border of one cell on every side leaves of this rectangle: the
    /// corner moves in by one cell, though not past the far edge, and the
    /// size shrinks by two cells, though not below nothing.
    pub open spec fn inside_border(self) -> Area {
        Area {
            x: (if self.x + 1 <= self.right() {
                self.x + 1
            } else {
                self.right()
            }) as u16,
            y: (if self.y + 1 <= self.bottom() {
                self.y + 1
            } else {
                self.bottom()
            }) as u16,
            width: (if self.width >= 2 {
                self.width - 2
            } else {
                0
            }) as u16,
            height: (if self.height >= 2 {
                self.height - 2
            } else {
                0
            }) as u16,
        }
    }
}

/// `part` is one part of `area` split along `axis`: across the axis it has
/// the position and the size of `area`, and along the axis it lies within it.
pub open spec fn part_of(axis: Axis, area: Area, part: Area) -> bool {
    match axis {
        Axis::Horizontal => {
            &&& part.y == area.y
            &&& part.height == area.height
            &&& area.x <= part.x
            &&& part.x + part.width <= area.right()
        },
        Axis::Vertical => {
            &&& part.x == area.x
            &&& part.width == area.width
            &&& area.y <= part.y
            &&& part.y + part.height <= area.bottom()
        },
    }
}

/// `parts` are the `count` parts of `area` split along `axis`. How much of
/// the rectangle each part gets is the solver's business and is not said.
pub open spec fn is_split(axis: Axis, area: Area, count: nat, parts: Seq<Area>) -> bool {
    &&& parts.len() == count
    &&& forall|i: int| 0 <= i < parts.len() ==> part_of(axis, area, #[trigger] parts[i])
}

/// `parts` is an answer of ratatui's layout solver to the question of how to
/// split `area` along `axis` into parts sized as `extents` ask.
///
/// This is a relation, not a function of the question: the solver may answer
/// one question differently from one run to the next, so nothing here lets
/// two answers be proved equal. It serves to say which question a rectangle
/// is an answer to.
pub uninterp spec fn solved(axis: Axis, area: Area, extents: Seq<Extent>, parts: Seq<Area>) -> bool;

/// What is asked of three parts so that the middle one takes `percent`
/// hundredths and the two around it share the rest evenly.
pub open spec fn centering(percent: u16) -> Seq<Extent> {
    seq![
        Extent::Percentage(((100 - percent) / 2) as u16),
        Extent::Percentage(percent),
        Extent::Percentage(((100 - percent) / 2) as u16),
    ]
}

/// `part` is the middle one of three parts that the solver made of `area`
/// along `axis` when asked for `centering(percent)`.
pub open spec fn is_middle(axis: Axis, area: Area, percent: u16, part: Area) -> bool {
    exists|parts: Seq<Area>| #[trigger]
        solved(axis, area, centering(percent), parts) && parts.len() == 3 && part == parts[1]
}

/// `centered` is what centring in `area` gives: the middle part, `percent_x`
/// hundredths wide, of the middle band, `percent_y` hundredths tall.
pub open spec fn is_centered(area: Area, percent_x: u16, percent_y: u16, centered: Area) -> bool {
    exists|band: Area| #[trigger]
        is_middle(Axis::Vertical, area, percent_y, band) && is_middle(
            Axis::Horizontal,
            band,
            percent_x,
            centered,
        )
}

/// `Layout::split` of ratatui, on a layout with the given direction and
/// constraints and nothing else set (no margin, no spacing).
///
/// The contract claims what ratatui's source shows of every result: there is
/// one part for each constraint; each part takes its position and size across
/// the axis from the rectangle that is split; and along the axis each part
/// lies within that rectangle, which the solver is required to see to. It
/// claims nothing of how the room is shared out: the solver may settle that
/// differently from one run to the next. The last clause only records that
/// the result is the solver's answer to this very question.
#[verifier::external_body]
fn split(axis: Axis, area: Area, extents: &Vec<Extent>) -> (parts: Vec<Area>)
    ensures
        is_split(axis, area, extents@.len(), parts@),
        solved(axis, area, extents@, parts@),
{
    let direction = match axis {
        Axis::Horizontal => Direction::Horizontal,
        Axis::Vertical => Direction::Vertical,
    };
    let constraints = extents.iter().map(|e| match e {
        Extent::Min(n) => Constraint::Min(*n),
        Extent::Length(n) => Constraint::Length(*n),
        Extent::Percentage(n) => Constraint::Percentage(*n),
    });
    let rect = Rect { x: area.x, y: area.y, width: area.width, height: area.height };
    let parts = Layout::default().direction(direction).constraints(constraints).split(rect);
    parts.iter().map(|r| Area { x: r.x, y: r.y, width: r.width, height: r.height }).collect()
}

/// `Block::inner` of ratatui, on a block with a border on all four sides and
/// `title` as its title.
///
/// The contract claims what the source computes for such a block: the room
/// that a border of one cell on every side leaves. The title sits in the top
/// border and takes no room of its own.
#[verifier::external_body]
pub(crate) fn inner_of_bordered(title: &str, area: Area) -> (inner: Area)
    ensures
        inner == area.inside_border(),
{
    let rect = Rect { x: area.x, y: area.y, width: area.width, height: area.height };
    let inner = Block::bordered().title(title).inner(rect);
    Area { x: inner.x, y: inner.y, width: inner.width, height: inner.height }
}

/// The extents to ask for so that the middle one of three parts takes
/// `percent` hundredths and the two around it share the rest evenly.
pub fn centering_extents(percent: u16) -> (extents: Vec<Extent>)
    requires
        percent <= 100,
    ensures
        extents@ == centering(percent),
{
    let rest = (100 - percent) / 2;
    let mut extents: Vec<Extent> = Vec::new();
    extents.push(Extent::Percentage(rest));
    extents.push(Extent::Percentage(percent));
    extents.push(Extent::Percentage(rest));
    assert(extents@ =~= centering(percent));
    extents
}

/// The two parts of a split in two, first and second; `None` where `parts`
/// does not hold exactly two.
pub fn both_of_two(parts: &Vec<Area>) -> (both: Option<(Area, Area)>)
    ensures
        both == if parts@.len() == 2 {
            Some((parts@[0], parts@[1]))
        } else {
            None
        },
{
    if parts.len() == 2 {
        Some((parts[0], parts[1]))
    } else {
        None
    }
}

/// The middle part of a split in three; `None` where `parts` does not hold
/// exactly three.
pub fn middle_of_three(parts: &Vec<Area>) -> (middle: Option<Area>)
    ensures
        middle == if parts@.len() == 3 {
            Some(parts@[1])
        } else {
            None
        },
{
    if parts.len() == 3 {
        Some(parts[1])
    } else {
        None
    }
}

/// Splits `area` in two along `axis`, the first part sized as `first` asks
/// and the second as `second` asks. The parts are the solver's answer to
/// exactly that question, in that order.
pub fn split_in_two(axis: Axis, area: Area, first: Extent, second: Extent) -> (parts: (Area, Area))
    ensures
        solved(axis, area, seq![first, second], seq![parts.0, parts.1]),
        part_of(axis, area, parts.0),
        part_of(axis, area, parts.1),
{
    let mut extents: Vec<Extent> = Vec::new();
    extents.push(first);
    extents.push(second);
    let parts = split(axis, area, &extents);
    proof {
        assert(extents@ =~= seq![first, second]);
        assert(parts@ =~= seq![parts@[0], parts@[1]]);
    }
    both_of_two(&parts).unwrap()
}

/// The middle one of three parts of `area` along `axis`, where the middle
/// part is asked to take `percent` hundredths of the rectangle and the two
/// around it to share the rest evenly.
pub fn middle_part(axis: Axis, area: Area, percent: u16) -> (part: Area)
    requires
        percent <= 100,
    ensures
        is_middle(axis, area, percent, part),
        part_of(axis, area, part),
{
    let extents = centering_extents(percent);
    let parts = split(axis, area, &extents);
    middle_of_three(&parts).unwrap()
}

/// A rectangle in the middle of `area`, asked to take `percent_x` hundredths
/// of its width and `percent_y` hundredths of its height: the middle part
/// across of the middle band down. Whatever the solver grants, the rectangle
/// lies within `area`.
pub fn centered_area(area: Area, percent_x: u16, percent_y: u16) -> (centered: Area)
    requires
        percent_x <= 100,
        percent_y <= 100,
    ensures
        is_centered(area, percent_x, percent_y, centered),
        area.contains(centered),
{
    let band = middle_part(Axis::Vertical, area, percent_y);
    middle_part(Axis::Horizontal, band, percent_x)
}

} // verus!
