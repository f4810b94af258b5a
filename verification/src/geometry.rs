//! The geometry and strut calculator: a pure function from screen geometry,
//! dock direction and margins to the 12-field EWMH partial strut vector, the
//! 4-field legacy strut, and the dock window's own rectangle and gravity.
//!
//! Strut layout, by index: [left, right, top, bottom, left_start_y,
//! left_end_y, right_start_y, right_end_y, top_start_x, top_end_x,
//! bottom_start_x, bottom_end_x].

use vstd::prelude::*;
use crate::config::DockDirection;
use crate::error::{ConfigFault, Error};

verus! {

/// Window gravity: the edge the window clings to when its parent resizes.
#[derive(Debug, Clone, Copy, PartialEq, Eq, Structural)]
pub enum Gravity {
    North,
    South,
    West,
    East,
}

/// The root window's geometry as the server reports it: the origin and the
/// extent of the screen the bar docks to.
#[derive(Debug, Clone, Copy, PartialEq, Eq, Structural)]
pub struct RootGeometry {
    pub x: i16,
    pub y: i16,
    pub width: u16,
    pub height: u16,
}

/// Index of the edge-thickness field that a dock direction owns.
pub open spec fn edge_index(dir: DockDirection) -> int {
    match dir {
        DockDirection::Left => 0,
        DockDirection::Right => 1,
        DockDirection::Top => 2,
        DockDirection::Bottom => 3,
    }
}

/// Index of the start field of the span pair that a dock direction owns; the
/// end field follows it.
pub open spec fn span_index(dir: DockDirection) -> int {
    match dir {
        DockDirection::Left => 4,
        DockDirection::Right => 6,
        DockDirection::Top => 8,
        DockDirection::Bottom => 10,
    }
}

/// The window's origin along the axis the strut spans: the root x for a
/// horizontal bar, the root y for a vertical one.
pub open spec fn span_origin(dir: DockDirection, x: int, y: int) -> int {
    match dir {
        DockDirection::Top | DockDirection::Bottom => x,
        DockDirection::Left | DockDirection::Right => y,
    }
}

/// The screen extent along the axis the strut spans.
pub open spec fn span_extent(dir: DockDirection, sw: int, sh: int) -> int {
    match dir {
        DockDirection::Top | DockDirection::Bottom => sw,
        DockDirection::Left | DockDirection::Right => sh,
    }
}

/// The 12-field partial strut: the edge field matching the dock direction
/// carries the bar thickness, its span pair is [origin + left margin,
/// origin + extent − right margin], and everything else is zero.
pub open spec fn strut_partial_spec(
    dir: DockDirection,
    thickness: int,
    x: int,
    y: int,
    sw: int,
    sh: int,
    left: int,
    right: int,
) -> Seq<int> {
    match dir {
        DockDirection::Left => seq![
            thickness,
            0,
            0,
            0,
            y + left,
            y + sh - right,
            0,
            0,
            0,
            0,
            0,
            0,
        ],
        DockDirection::Right => seq![
            0,
            thickness,
            0,
            0,
            0,
            0,
            y + left,
            y + sh - right,
            0,
            0,
            0,
            0,
        ],
        DockDirection::Top => seq![
            0,
            0,
            thickness,
            0,
            0,
            0,
            0,
            0,
            x + left,
            x + sw - right,
            0,
            0,
        ],
        DockDirection::Bottom => seq![
            0,
            0,
            0,
            thickness,
            0,
            0,
            0,
            0,
            0,
            0,
            x + left,
            x + sw - right,
        ],
    }
}

/// The partial strut as the 32-bit signed values that go on the wire.
pub open spec fn strut_partial_i32(
    dir: DockDirection,
    thickness: u16,
    x: i16,
    y: i16,
    sw: u16,
    sh: u16,
    left: i16,
    right: i16,
) -> Seq<i32> {
    strut_partial_spec(
        dir,
        thickness as int,
        x as int,
        y as int,
        sw as int,
        sh as int,
        left as int,
        right as int,
    ).map_values(|v: int| v as i32)
}

/// Computes the 12-field partial strut.
pub fn strut_partial(
    dir: DockDirection,
    thickness: u16,
    x: i16,
    y: i16,
    sw: u16,
    sh: u16,
    left: i16,
    right: i16,
) -> (r: Vec<i32>)
    ensures
        r@ == strut_partial_i32(dir, thickness, x, y, sw, sh, left, right),
        r@.len() == 12,
        forall|i: int|
            0 <= i < 12 ==> r@[i] as int == strut_partial_spec(
                dir,
                thickness as int,
                x as int,
                y as int,
                sw as int,
                sh as int,
                left as int,
                right as int,
            )[i],
{
    let t: i32 = thickness as i32;
    let (origin, extent): (i32, i32) = match dir {
        DockDirection::Top | DockDirection::Bottom => (x as i32, sw as i32),
        DockDirection::Left | DockDirection::Right => (y as i32, sh as i32),
    };
    let start: i32 = origin + left as i32;
    let end: i32 = origin + extent - right as i32;
    let r: Vec<i32> = match dir {
        DockDirection::Left => vec![t, 0, 0, 0, start, end, 0, 0, 0, 0, 0, 0],
        DockDirection::Right => vec![0, t, 0, 0, 0, 0, start, end, 0, 0, 0, 0],
        DockDirection::Top => vec![0, 0, t, 0, 0, 0, 0, 0, start, end, 0, 0],
        DockDirection::Bottom => vec![0, 0, 0, t, 0, 0, 0, 0, 0, 0, start, end],
    };
    proof {
        assert(r@ =~= strut_partial_i32(dir, thickness, x, y, sw, sh, left, right));
    }
    r
}

/// The 4-field legacy strut: one thickness per edge, no spans.
pub open spec fn strut_legacy_spec(dir: DockDirection, thickness: int) -> Seq<int> {
    match dir {
        DockDirection::Left => seq![thickness, 0, 0, 0],
        DockDirection::Right => seq![0, thickness, 0, 0],
        DockDirection::Top => seq![0, 0, thickness, 0],
        DockDirection::Bottom => seq![0, 0, 0, thickness],
    }
}

/// Takes the legacy strut out of a partial strut: its first four fields.
pub fn strut_legacy(partial: &Vec<i32>) -> (r: Vec<i32>)
    requires
        partial@.len() == 12,
    ensures
        r@ == partial@.subrange(0, 4),
{
    let mut r: Vec<i32> = Vec::new();
    r.push(partial[0]);
    r.push(partial[1]);
    r.push(partial[2]);
    r.push(partial[3]);
    proof {
        assert(r@ =~= partial@.subrange(0, 4));
    }
    r
}

/// Law: the legacy strut is always exactly the first four fields of the
/// partial strut, for every direction and all inputs.
pub proof fn lemma_legacy_is_partial_prefix(
    dir: DockDirection,
    thickness: int,
    x: int,
    y: int,
    sw: int,
    sh: int,
    left: int,
    right: int,
)
    ensures
        strut_legacy_spec(dir, thickness) =~= strut_partial_spec(
            dir,
            thickness,
            x,
            y,
            sw,
            sh,
            left,
            right,
        ).subrange(0, 4),
{
}

/// Law: for margins l, r ≥ 0 with l + r no more than the screen extent along
/// the docked axis, and a positive thickness, the partial strut has exactly
/// one non-zero thickness field — the one matching the dock direction — its
/// span runs from origin + l to origin + extent − r (start never past the
/// end), and the other eight fields are zero.
pub proof fn lemma_strut_shape(
    dir: DockDirection,
    thickness: int,
    x: int,
    y: int,
    sw: int,
    sh: int,
    left: int,
    right: int,
)
    requires
        thickness > 0,
        left >= 0,
        right >= 0,
        left + right <= span_extent(dir, sw, sh),
    ensures
        strut_partial_spec(dir, thickness, x, y, sw, sh, left, right).len() == 12,
        strut_partial_spec(dir, thickness, x, y, sw, sh, left, right)[edge_index(dir)]
            == thickness,
        forall|i: int|
            0 <= i < 4 && i != edge_index(dir) ==> strut_partial_spec(
                dir,
                thickness,
                x,
                y,
                sw,
                sh,
                left,
                right,
            )[i] == 0,
        strut_partial_spec(dir, thickness, x, y, sw, sh, left, right)[span_index(dir)]
            == span_origin(dir, x, y) + left,
        strut_partial_spec(dir, thickness, x, y, sw, sh, left, right)[span_index(dir) + 1]
            == span_origin(dir, x, y) + span_extent(dir, sw, sh) - right,
        strut_partial_spec(dir, thickness, x, y, sw, sh, left, right)[span_index(dir)]
            <= strut_partial_spec(dir, thickness, x, y, sw, sh, left, right)[span_index(dir) + 1],
        forall|i: int|
            4 <= i < 12 && i != span_index(dir) && i != span_index(dir) + 1
                ==> strut_partial_spec(dir, thickness, x, y, sw, sh, left, right)[i] == 0,
{
}

/// Where the dock window itself stands and how large it is: a horizontal bar
/// spans the root's full width with the bar thickness as its height, pushed
/// to the top or bottom edge; a vertical bar spans the full height, pushed
/// to the left or right edge. The gravity names the docked edge.
pub open spec fn window_rect_spec(dir: DockDirection, geom: RootGeometry, thickness: u16) -> (
    int,
    int,
    int,
    int,
    Gravity,
) {
    match dir {
        DockDirection::Top => (
            geom.x as int,
            geom.y as int,
            geom.width as int,
            thickness as int,
            Gravity::North,
        ),
        DockDirection::Bottom => (
            geom.x as int,
            geom.y as int + geom.height as int - thickness as int,
            geom.width as int,
            thickness as int,
            Gravity::South,
        ),
        DockDirection::Left => (
            geom.x as int,
            geom.y as int,
            thickness as int,
            geom.height as int,
            Gravity::West,
        ),
        DockDirection::Right => (
            geom.x as int + geom.width as int - thickness as int,
            geom.y as int,
            thickness as int,
            geom.height as int,
            Gravity::East,
        ),
    }
}

/// Whether the window's computed origin fits the 16-bit signed coordinates
/// the wire format carries.
pub open spec fn rect_fits(dir: DockDirection, geom: RootGeometry, thickness: u16) -> bool {
    let (x, y, w, h, g) = window_rect_spec(dir, geom, thickness);
    i16::MIN <= x <= i16::MAX && i16::MIN <= y <= i16::MAX
}

/// The out-of-range coordinate a rejected rectangle is reported with.
pub open spec fn rect_fault_value(dir: DockDirection, geom: RootGeometry, thickness: u16) -> int {
    match dir {
        DockDirection::Bottom => geom.y as int + geom.height as int - thickness as int,
        DockDirection::Right => geom.x as int + geom.width as int - thickness as int,
        _ => 0,
    }
}

/// Computes the dock window's rectangle and gravity, rejecting a position
/// that cannot be represented on the wire.
pub fn window_rect(dir: DockDirection, geom: &RootGeometry, thickness: u16) -> (r: Result<
    (i16, i16, u16, u16, Gravity),
    Error,
>)
    ensures
        r matches Ok((x, y, w, h, g)) ==> (x as int, y as int, w as int, h as int, g)
            == window_rect_spec(dir, *geom, thickness),
        r is Ok <==> rect_fits(dir, *geom, thickness),
        !rect_fits(dir, *geom, thickness) ==> r == Err::<(i16, i16, u16, u16, Gravity), Error>(
            Error::Config(
                ConfigFault::PositionOutOfRange(rect_fault_value(dir, *geom, thickness) as i32),
            ),
        ),
{
    match dir {
        DockDirection::Top => Ok((geom.x, geom.y, geom.width, thickness, Gravity::North)),
        DockDirection::Bottom => {
            let y: i32 = geom.y as i32 + geom.height as i32 - thickness as i32;
            if y < i16::MIN as i32 || y > i16::MAX as i32 {
                Err(Error::Config(ConfigFault::PositionOutOfRange(y)))
            } else {
                Ok((geom.x, y as i16, geom.width, thickness, Gravity::South))
            }
        },
        DockDirection::Left => Ok((geom.x, geom.y, thickness, geom.height, Gravity::West)),
        DockDirection::Right => {
            let x: i32 = geom.x as i32 + geom.width as i32 - thickness as i32;
            if x < i16::MIN as i32 || x > i16::MAX as i32 {
                Err(Error::Config(ConfigFault::PositionOutOfRange(x)))
            } else {
                Ok((x as i16, geom.y, thickness, geom.height, Gravity::East))
            }
        },
    }
}

} // verus!
