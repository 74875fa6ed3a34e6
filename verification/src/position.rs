//! The nine window positions, their names, and where each one places the
//! main window inside a monitor's work area.

use vstd::prelude::*;
use crate::text::{
    all_white_space, lemma_trim_and_lowercase_ignore_ascii_case, lemma_trim_ws_ignores_padding,
    same_ascii_ignoring_case,
    is_plain_lower, lemma_plain_lower, lemma_trim_ws_idempotent,
    ascii_lowercase, is_ascii_text, lowercase, text_eq, to_lowercase, trim_str, trim_ws,
};

verus! {

/// Where the main window is shown: one cell of a three-by-three grid over the
/// work area of a monitor.
#[derive(Clone, Copy, Debug, PartialEq, Eq, Structural)]
pub enum WindowPositionMode {
    LeftTop,
    TopCenter,
    RightTop,
    LeftCenter,
    RightBottom,
    RightCenter,
    LeftBottom,
    BottomCenter,
    Center,
}

/// A column of the position grid.
#[derive(Clone, Copy, Debug, PartialEq, Eq, Structural)]
pub enum GridColumn {
    Left,
    Middle,
    Right,
}

/// A row of the position grid.
#[derive(Clone, Copy, Debug, PartialEq, Eq, Structural)]
pub enum GridRow {
    Top,
    Middle,
    Bottom,
}

/// Horizontal distance kept from the work area's edge.
pub const FLOATING_MARGIN_X: i32 = 16;

/// Vertical distance kept from the work area's edge.
pub const FLOATING_MARGIN_Y: i32 = 16;

/// Width assumed for the window when its size cannot be read.
pub const FALLBACK_WINDOW_WIDTH: i32 = 900;

/// Height assumed for the window when its size cannot be read.
pub const FALLBACK_WINDOW_HEIGHT: i32 = 700;

impl WindowPositionMode {
    /// The name under which the mode is stored and exchanged.
    pub open spec fn name(self) -> Seq<char> {
        match self {
            WindowPositionMode::LeftTop => "left_top"@,
            WindowPositionMode::TopCenter => "top_center"@,
            WindowPositionMode::RightTop => "right_top"@,
            WindowPositionMode::LeftCenter => "left_center"@,
            WindowPositionMode::RightBottom => "right_bottom"@,
            WindowPositionMode::RightCenter => "right_center"@,
            WindowPositionMode::LeftBottom => "left_bottom"@,
            WindowPositionMode::BottomCenter => "bottom_center"@,
            WindowPositionMode::Center => "center"@,
        }
    }

    /// The grid column of the mode.
    pub open spec fn column(self) -> GridColumn {
        match self {
            WindowPositionMode::LeftTop | WindowPositionMode::LeftCenter
            | WindowPositionMode::LeftBottom => GridColumn::Left,
            WindowPositionMode::TopCenter | WindowPositionMode::Center
            | WindowPositionMode::BottomCenter => GridColumn::Middle,
            WindowPositionMode::RightTop | WindowPositionMode::RightCenter
            | WindowPositionMode::RightBottom => GridColumn::Right,
        }
    }

    /// The grid row of the mode.
    pub open spec fn row(self) -> GridRow {
        match self {
            WindowPositionMode::LeftTop | WindowPositionMode::TopCenter
            | WindowPositionMode::RightTop => GridRow::Top,
            WindowPositionMode::LeftCenter | WindowPositionMode::Center
            | WindowPositionMode::RightCenter => GridRow::Middle,
            WindowPositionMode::LeftBottom | WindowPositionMode::BottomCenter
            | WindowPositionMode::RightBottom => GridRow::Bottom,
        }
    }

    /// The mode whose name is exactly `name`, if any.
    pub open spec fn named(name: Seq<char>) -> Option<WindowPositionMode> {
        if name == "left_top"@ {
            Some(WindowPositionMode::LeftTop)
        } else if name == "top_center"@ {
            Some(WindowPositionMode::TopCenter)
        } else if name == "right_top"@ {
            Some(WindowPositionMode::RightTop)
        } else if name == "left_center"@ {
            Some(WindowPositionMode::LeftCenter)
        } else if name == "right_bottom"@ {
            Some(WindowPositionMode::RightBottom)
        } else if name == "right_center"@ {
            Some(WindowPositionMode::RightCenter)
        } else if name == "left_bottom"@ {
            Some(WindowPositionMode::LeftBottom)
        } else if name == "bottom_center"@ {
            Some(WindowPositionMode::BottomCenter)
        } else if name == "center"@ {
            Some(WindowPositionMode::Center)
        } else {
            None
        }
    }

    /// What `parse` gives for `raw`: the mode named by its lower-case form
    /// once surrounding white space is removed.
    pub open spec fn parse_spec(raw: Seq<char>) -> Option<WindowPositionMode> {
        WindowPositionMode::named(lowercase(trim_ws(raw)))
    }

    /// What `parse` gives for `raw`, with ASCII text spelled out: text that
    /// is ASCII once trimmed gives the mode named by its ASCII lower-case form.
    pub open spec fn parsed(raw: Seq<char>) -> Option<WindowPositionMode> {
        if is_ascii_text(trim_ws(raw)) {
            WindowPositionMode::named(ascii_lowercase(trim_ws(raw)))
        } else {
            WindowPositionMode::parse_spec(raw)
        }
    }

    /// The mode whose name is exactly `name`.
    pub fn from_name(name: &str) -> (r: Option<WindowPositionMode>)
        ensures
            r == WindowPositionMode::named(name@),
    {
        if text_eq(name, "left_top") {
            Some(WindowPositionMode::LeftTop)
        } else if text_eq(name, "top_center") {
            Some(WindowPositionMode::TopCenter)
        } else if text_eq(name, "right_top") {
            Some(WindowPositionMode::RightTop)
        } else if text_eq(name, "left_center") {
            Some(WindowPositionMode::LeftCenter)
        } else if text_eq(name, "right_bottom") {
            Some(WindowPositionMode::RightBottom)
        } else if text_eq(name, "right_center") {
            Some(WindowPositionMode::RightCenter)
        } else if text_eq(name, "left_bottom") {
            Some(WindowPositionMode::LeftBottom)
        } else if text_eq(name, "bottom_center") {
            Some(WindowPositionMode::BottomCenter)
        } else if text_eq(name, "center") {
            Some(WindowPositionMode::Center)
        } else {
            None
        }
    }

    /// Reads a mode from user or stored text, ignoring surrounding white
    /// space and letter case.
    pub fn parse(raw: &str) -> (r: Option<WindowPositionMode>)
        ensures
            r == WindowPositionMode::parse_spec(raw@),
            is_ascii_text(trim_ws(raw@)) ==> r == WindowPositionMode::named(
                ascii_lowercase(trim_ws(raw@)),
            ),
            r == WindowPositionMode::parsed(raw@),
    {
        let trimmed = trim_str(raw);
        let lowered = to_lowercase(trimmed);
        WindowPositionMode::from_name(lowered.as_str())
    }

    /// The name of the mode.
    pub fn as_str(self) -> (r: &'static str)
        ensures
            r@ == self.name(),
    {
        match self {
            WindowPositionMode::LeftTop => "left_top",
            WindowPositionMode::TopCenter => "top_center",
            WindowPositionMode::RightTop => "right_top",
            WindowPositionMode::LeftCenter => "left_center",
            WindowPositionMode::RightBottom => "right_bottom",
            WindowPositionMode::RightCenter => "right_center",
            WindowPositionMode::LeftBottom => "left_bottom",
            WindowPositionMode::BottomCenter => "bottom_center",
            WindowPositionMode::Center => "center",
        }
    }
}

proof fn lemma_mode_name_facts()
    ensures
        "left_top"@.len() == 8,
        "top_center"@.len() == 10,
        "right_top"@.len() == 9,
        "left_center"@.len() == 11,
        "right_bottom"@.len() == 12,
        "right_center"@.len() == 12,
        "left_bottom"@.len() == 11,
        "bottom_center"@.len() == 13,
        "center"@.len() == 6,
        "left_center"@[5] != "left_bottom"@[5],
        "right_bottom"@[6] != "right_center"@[6],
{
    reveal_strlit("left_top");
    reveal_strlit("top_center");
    reveal_strlit("right_top");
    reveal_strlit("left_center");
    reveal_strlit("right_bottom");
    reveal_strlit("right_center");
    reveal_strlit("left_bottom");
    reveal_strlit("bottom_center");
    reveal_strlit("center");
}

proof fn lemma_name_is_plain(m: WindowPositionMode)
    ensures
        is_plain_lower(m.name()),
{
    match m {
        WindowPositionMode::LeftTop => {
            reveal_strlit("left_top");
            reveal_with_fuel(is_plain_lower, 9);
        },
        WindowPositionMode::TopCenter => {
            reveal_strlit("top_center");
            reveal_with_fuel(is_plain_lower, 11);
        },
        WindowPositionMode::RightTop => {
            reveal_strlit("right_top");
            reveal_with_fuel(is_plain_lower, 10);
        },
        WindowPositionMode::LeftCenter => {
            reveal_strlit("left_center");
            reveal_with_fuel(is_plain_lower, 12);
        },
        WindowPositionMode::RightBottom => {
            reveal_strlit("right_bottom");
            reveal_with_fuel(is_plain_lower, 13);
        },
        WindowPositionMode::RightCenter => {
            reveal_strlit("right_center");
            reveal_with_fuel(is_plain_lower, 13);
        },
        WindowPositionMode::LeftBottom => {
            reveal_strlit("left_bottom");
            reveal_with_fuel(is_plain_lower, 12);
        },
        WindowPositionMode::BottomCenter => {
            reveal_strlit("bottom_center");
            reveal_with_fuel(is_plain_lower, 14);
        },
        WindowPositionMode::Center => {
            reveal_strlit("center");
            reveal_with_fuel(is_plain_lower, 7);
        },
    }
}

/// Each mode is found again under its own name, so distinct modes have
/// distinct names.
pub proof fn lemma_named_inverts_name(m: WindowPositionMode)
    ensures
        WindowPositionMode::named(m.name()) == Some(m),
{
    lemma_mode_name_facts();
}

/// The name of a mode parses back to that mode: it is ASCII, has no
/// surrounding white space, and is already lower case.
pub proof fn lemma_name_parses_back(m: WindowPositionMode)
    ensures
        is_ascii_text(trim_ws(m.name())),
        WindowPositionMode::named(ascii_lowercase(trim_ws(m.name()))) == Some(m),
{
    lemma_name_is_plain(m);
    lemma_plain_lower(m.name());
    lemma_named_inverts_name(m);
}

/// Two modes with the same name are the same mode.
pub proof fn lemma_name_injective(a: WindowPositionMode, b: WindowPositionMode)
    requires
        a.name() == b.name(),
    ensures
        a == b,
{
    lemma_named_inverts_name(a);
    lemma_named_inverts_name(b);
}

/// Parsing ignores white space around the text.
pub proof fn lemma_parse_ignores_surrounding_white_space(raw: Seq<char>)
    ensures
        WindowPositionMode::parse_spec(trim_ws(raw)) == WindowPositionMode::parse_spec(raw),
{
    lemma_trim_ws_idempotent(raw);
}

/// Parsing ignores white space around any text.
pub proof fn lemma_parse_ignores_padding(before: Seq<char>, text: Seq<char>, after: Seq<char>)
    requires
        all_white_space(before),
        all_white_space(after),
    ensures
        WindowPositionMode::parsed(before + text + after) == WindowPositionMode::parsed(text),
        WindowPositionMode::parse_spec(before + text + after) == WindowPositionMode::parse_spec(text),
{
    lemma_trim_ws_ignores_padding(before, text, after);
}

/// Parsing ASCII text ignores the case of its letters.
pub proof fn lemma_parse_ignores_ascii_case(a: Seq<char>, b: Seq<char>)
    requires
        same_ascii_ignoring_case(a, b),
    ensures
        WindowPositionMode::parsed(a) == WindowPositionMode::parsed(b),
{
    lemma_trim_and_lowercase_ignore_ascii_case(a, b);
}

/// The nine modes are exactly the nine cells of the grid: each cell holds
/// one mode, and no two modes share a cell.
pub proof fn lemma_modes_tile_grid(column: GridColumn, row: GridRow, a: WindowPositionMode, b: WindowPositionMode)
    ensures
        exists|m: WindowPositionMode| m.column() == column && m.row() == row,
        a.column() == b.column() && a.row() == b.row() ==> a == b,
{
    let m = match (column, row) {
        (GridColumn::Left, GridRow::Top) => WindowPositionMode::LeftTop,
        (GridColumn::Middle, GridRow::Top) => WindowPositionMode::TopCenter,
        (GridColumn::Right, GridRow::Top) => WindowPositionMode::RightTop,
        (GridColumn::Left, GridRow::Middle) => WindowPositionMode::LeftCenter,
        (GridColumn::Middle, GridRow::Middle) => WindowPositionMode::Center,
        (GridColumn::Right, GridRow::Middle) => WindowPositionMode::RightCenter,
        (GridColumn::Left, GridRow::Bottom) => WindowPositionMode::LeftBottom,
        (GridColumn::Middle, GridRow::Bottom) => WindowPositionMode::BottomCenter,
        (GridColumn::Right, GridRow::Bottom) => WindowPositionMode::RightBottom,
    };
    assert(m.column() == column && m.row() == row);
}

/// The work area of a monitor (the screen without task bars and menu bars):
/// its top-left corner and its size, in physical pixels.
#[derive(Clone, Copy, Debug, PartialEq, Eq, Structural)]
pub struct WorkArea {
    pub x: i32,
    pub y: i32,
    pub width: i32,
    pub height: i32,
}

/// Half of `a`, rounded toward zero as integer division does.
pub open spec fn half_toward_zero(a: int) -> int {
    if a >= 0 {
        a / 2
    } else {
        -((-a) / 2)
    }
}

/// The larger of two integers.
pub open spec fn max_int(a: int, b: int) -> int {
    if a >= b {
        a
    } else {
        b
    }
}

/// The window's size, or the fallback size when it could not be read.
pub open spec fn size_or_fallback(size: Option<(i32, i32)>) -> (int, int) {
    match size {
        Some(s) => (s.0 as int, s.1 as int),
        None => (FALLBACK_WINDOW_WIDTH as int, FALLBACK_WINDOW_HEIGHT as int),
    }
}

/// Left edge of a window `window_width` wide placed in `column` of `area`.
pub open spec fn placed_x(column: GridColumn, area: WorkArea, window_width: int) -> int {
    match column {
        GridColumn::Left => area.x + FLOATING_MARGIN_X,
        GridColumn::Middle => area.x + half_toward_zero(area.width - window_width),
        GridColumn::Right => max_int(
            area.x + area.width - window_width - FLOATING_MARGIN_X,
            area.x as int,
        ),
    }
}

/// Top edge of a window `window_height` high placed in `row` of `area`.
pub open spec fn placed_y(row: GridRow, area: WorkArea, window_height: int) -> int {
    match row {
        GridRow::Top => area.y + FLOATING_MARGIN_Y,
        GridRow::Middle => area.y + half_toward_zero(area.height - window_height),
        GridRow::Bottom => max_int(
            area.y + area.height - window_height - FLOATING_MARGIN_Y,
            area.y as int,
        ),
    }
}

/// `v` is a value of `i32`.
pub open spec fn fits_i32(v: int) -> bool {
    i32::MIN <= v <= i32::MAX
}

/// Every intermediate value of the placement of a window of the given size
/// is an `i32`.
pub open spec fn placement_fits(mode: WindowPositionMode, area: WorkArea, width: int, height: int) -> bool {
    &&& fits_i32(area.x + area.width)
    &&& fits_i32(area.y + area.height)
    &&& match mode.column() {
        GridColumn::Left => fits_i32(area.x + FLOATING_MARGIN_X),
        GridColumn::Middle => fits_i32(area.width - width) && fits_i32(
            area.x + half_toward_zero(area.width - width),
        ),
        GridColumn::Right => fits_i32(area.x + area.width - width) && fits_i32(
            area.x + area.width - width - FLOATING_MARGIN_X,
        ),
    }
    &&& match mode.row() {
        GridRow::Top => fits_i32(area.y + FLOATING_MARGIN_Y),
        GridRow::Middle => fits_i32(area.height - height) && fits_i32(
            area.y + half_toward_zero(area.height - height),
        ),
        GridRow::Bottom => fits_i32(area.y + area.height - height) && fits_i32(
            area.y + area.height - height - FLOATING_MARGIN_Y,
        ),
    }
}

fn half_i64(a: i64) -> (r: i64)
    requires
        fits_i32(a as int),
    ensures
        r == half_toward_zero(a as int),
{
    if a >= 0 {
        a / 2
    } else {
        -((-a) / 2)
    }
}

/// Where a window goes along one axis of the work area.
#[derive(Clone, Copy, Debug, PartialEq, Eq, Structural)]
enum Alignment {
    /// At the near edge, past the margin.
    Near,
    /// Centred.
    Middle,
    /// At the far edge, before the margin, but never before the near edge.
    Far,
}

/// The start of a window `window` long placed along an axis of the work
/// area that begins at `start` and is `extent` long.
fn place_along(start: i32, extent: i32, window: i32, margin: i32, alignment: Alignment) -> (r: i32)
    requires
        fits_i32(start + extent),
        margin == 16,
        alignment == Alignment::Near ==> fits_i32(start + margin),
        alignment == Alignment::Middle ==> fits_i32(extent - window) && fits_i32(
            start + half_toward_zero(extent - window),
        ),
        alignment == Alignment::Far ==> fits_i32(start + extent - window) && fits_i32(
            start + extent - window - margin,
        ),
    ensures
        r == match alignment {
            Alignment::Near => start + margin,
            Alignment::Middle => start + half_toward_zero(extent - window),
            Alignment::Far => max_int(start + extent - window - margin, start as int),
        },
{
    let start = start as i64;
    let end = start + extent as i64;
    let placed: i64 = match alignment {
        Alignment::Near => start + margin as i64,
        Alignment::Middle => start + half_i64(extent as i64 - window as i64),
        Alignment::Far => {
            let candidate = end - window as i64 - margin as i64;
            if candidate >= start {
                candidate
            } else {
                start
            }
        },
    };
    placed as i32
}

impl WindowPositionMode {
    /// The grid column of the mode.
    pub fn grid_column(self) -> (r: GridColumn)
        ensures
            r == self.column(),
    {
        match self {
            WindowPositionMode::LeftTop | WindowPositionMode::LeftCenter
            | WindowPositionMode::LeftBottom => GridColumn::Left,
            WindowPositionMode::TopCenter | WindowPositionMode::Center
            | WindowPositionMode::BottomCenter => GridColumn::Middle,
            WindowPositionMode::RightTop | WindowPositionMode::RightCenter
            | WindowPositionMode::RightBottom => GridColumn::Right,
        }
    }

    /// The grid row of the mode.
    pub fn grid_row(self) -> (r: GridRow)
        ensures
            r == self.row(),
    {
        match self {
            WindowPositionMode::LeftTop | WindowPositionMode::TopCenter
            | WindowPositionMode::RightTop => GridRow::Top,
            WindowPositionMode::LeftCenter | WindowPositionMode::Center
            | WindowPositionMode::RightCenter => GridRow::Middle,
            WindowPositionMode::LeftBottom | WindowPositionMode::BottomCenter
            | WindowPositionMode::RightBottom => GridRow::Bottom,
        }
    }
}

/// The top-left corner at which the main window is shown in `area` for
/// `mode`. `window_size` is the window's outer size, when it could be read.
pub fn window_origin(mode: WindowPositionMode, area: WorkArea, window_size: Option<(i32, i32)>) -> (r: (i32, i32))
    requires
        placement_fits(
            mode,
            area,
            size_or_fallback(window_size).0,
            size_or_fallback(window_size).1,
        ),
    ensures
        r.0 == placed_x(mode.column(), area, size_or_fallback(window_size).0),
        r.1 == placed_y(mode.row(), area, size_or_fallback(window_size).1),
{
    let (width, height) = match window_size {
        Some(size) => size,
        None => (FALLBACK_WINDOW_WIDTH, FALLBACK_WINDOW_HEIGHT),
    };
    let horizontal = match mode.grid_column() {
        GridColumn::Left => Alignment::Near,
        GridColumn::Middle => Alignment::Middle,
        GridColumn::Right => Alignment::Far,
    };
    let vertical = match mode.grid_row() {
        GridRow::Top => Alignment::Near,
        GridRow::Middle => Alignment::Middle,
        GridRow::Bottom => Alignment::Far,
    };
    let x = place_along(area.x, area.width, width, FLOATING_MARGIN_X, horizontal);
    let y = place_along(area.y, area.height, height, FLOATING_MARGIN_Y, vertical);
    (x, y)
}

/// Whether every intermediate value of the placement stays within `i32`.
fn fits_in_i32(v: i64) -> (r: bool)
    ensures
        r == fits_i32(v as int),
{
    -2147483648 <= v && v <= 2147483647
}

/// The placement of `window_origin`, or `None` when one of its intermediate
/// values would leave `i32`.
pub fn checked_window_origin(mode: WindowPositionMode, area: WorkArea, window_size: Option<(i32, i32)>) -> (r: Option<(i32, i32)>)
    ensures
        r is Some <==> placement_fits(
            mode,
            area,
            size_or_fallback(window_size).0,
            size_or_fallback(window_size).1,
        ),
        r matches Some(origin) ==> origin.0 == placed_x(
            mode.column(),
            area,
            size_or_fallback(window_size).0,
        ) && origin.1 == placed_y(mode.row(), area, size_or_fallback(window_size).1),
{
    let (width, height) = match window_size {
        Some(size) => size,
        None => (FALLBACK_WINDOW_WIDTH, FALLBACK_WINDOW_HEIGHT),
    };
    let (x, y, w, h) = (area.x as i64, area.y as i64, area.width as i64, area.height as i64);
    let (ww, wh) = (width as i64, height as i64);
    let mut fits = fits_in_i32(x + w) && fits_in_i32(y + h);
    fits = fits && match mode.grid_column() {
        GridColumn::Left => fits_in_i32(x + 16),
        GridColumn::Middle => fits_in_i32(w - ww) && fits_in_i32(x + half_i64(w - ww)),
        GridColumn::Right => fits_in_i32(x + w - ww) && fits_in_i32(x + w - ww - 16),
    };
    fits = fits && match mode.grid_row() {
        GridRow::Top => fits_in_i32(y + 16),
        GridRow::Middle => fits_in_i32(h - wh) && fits_in_i32(y + half_i64(h - wh)),
        GridRow::Bottom => fits_in_i32(y + h - wh) && fits_in_i32(y + h - wh - 16),
    };
    if fits {
        Some(window_origin(mode, area, window_size))
    } else {
        None
    }
}

/// A window that fits in the work area with its margin to spare is placed
/// entirely inside the work area, whatever the mode.
pub proof fn lemma_window_within_work_area(
    mode: WindowPositionMode,
    area: WorkArea,
    width: int,
    height: int,
)
    requires
        0 <= width,
        width + FLOATING_MARGIN_X <= area.width,
        0 <= height,
        height + FLOATING_MARGIN_Y <= area.height,
    ensures
        area.x <= placed_x(mode.column(), area, width),
        placed_x(mode.column(), area, width) + width <= area.x + area.width,
        area.y <= placed_y(mode.row(), area, height),
        placed_y(mode.row(), area, height) + height <= area.y + area.height,
{
}

/// Windows in the right column never start left of the work area, and
/// windows in the bottom row never start above it.
pub proof fn lemma_far_edges_stay_in_area(area: WorkArea, width: int, height: int)
    ensures
        placed_x(GridColumn::Right, area, width) >= area.x,
        placed_y(GridRow::Bottom, area, height) >= area.y,
{
}

} // verus!
