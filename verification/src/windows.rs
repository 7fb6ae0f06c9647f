//! The Windows backend: the size of the visible console window, from what the
//! console reported of its screen buffer.
//!
//! Only the standard output handle of the process is consulted. The caller
//! obtains the handle and, unless it is the invalid-handle sentinel, queries
//! the screen-buffer information; what came of that is a [`ConsoleProbe`],
//! and [`terminal_size`] turns it into a size.

use vstd::prelude::*;
use crate::size::{FullSize, Height, Size, Width};

verus! {

/// The visible window of a console, as the inclusive bounds of a rectangle
/// in the cells of its screen buffer.
#[derive(Debug, Clone, Copy, PartialEq, Eq, Structural)]
pub struct WindowRect {
    /// Leftmost visible column.
    pub left: i16,
    /// Topmost visible row.
    pub top: i16,
    /// Rightmost visible column.
    pub right: i16,
    /// Bottommost visible row.
    pub bottom: i16,
}

/// What the screen-buffer information of a console holds of its geometry.
/// The buffer may be a scrollback far larger than the window onto it.
#[derive(Debug, Clone, Copy, PartialEq, Eq, Structural)]
pub struct ScreenBufferInfo {
    /// Columns of the whole screen buffer.
    pub buffer_columns: i16,
    /// Rows of the whole screen buffer.
    pub buffer_rows: i16,
    /// The part of the buffer that is on display.
    pub window: WindowRect,
}

/// What probing the standard output handle found.
#[derive(Debug, Clone, Copy, PartialEq, Eq, Structural)]
pub enum ConsoleProbe {
    /// The handle is the invalid-handle sentinel: no console is attached,
    /// and no query was made.
    InvalidHandle,
    /// The screen-buffer query reported failure.
    QueryFailed,
    /// The screen-buffer query filled in this information.
    Reported(ScreenBufferInfo),
}

/// The number of cells from `low` to `high`, both included.
pub open spec fn span(low: i16, high: i16) -> int {
    high - low + 1
}

/// The span from `low` to `high` as a dimension: none where it is not a
/// positive 16-bit count.
pub open spec fn dimension_of(low: i16, high: i16) -> Option<u16> {
    if 1 <= span(low, high) <= u16::MAX {
        Some(span(low, high) as u16)
    } else {
        None
    }
}

/// The size of a visible window: its columns and rows, where both are
/// dimensions.
pub open spec fn size_of_window(window: WindowRect) -> Option<Size> {
    match (dimension_of(window.left, window.right), dimension_of(window.top, window.bottom)) {
        (Some(columns), Some(rows)) => Some((Width(columns), Height(rows))),
        _ => None,
    }
}

/// The size that a probe of the console amounts to.
pub open spec fn size_of_console(probe: ConsoleProbe) -> Option<Size> {
    match probe {
        ConsoleProbe::InvalidHandle => None,
        ConsoleProbe::QueryFailed => None,
        ConsoleProbe::Reported(info) => size_of_window(info.window),
    }
}

/// The size that a probe of the console amounts to, with the pixel extent
/// that this platform never has.
pub open spec fn full_size_of_console(probe: ConsoleProbe) -> Option<FullSize> {
    match size_of_console(probe) {
        Some((width, height)) => Some((width, height, None)),
        None => None,
    }
}

/// Counts the cells from `low` to `high`, both included. The count is taken
/// in a wider type, so that no pair of bounds overflows; a count that is not
/// a positive 16-bit number is no dimension.
pub fn dimension(low: i16, high: i16) -> (cells: Option<u16>)
    ensures
        cells == dimension_of(low, high),
{
    let count: i32 = high as i32 - low as i32 + 1;
    if 1 <= count && count <= 65535 {
        Some(count as u16)
    } else {
        None
    }
}

/// Returns the size of the terminal, if available.
///
/// Note that this is the size of the actual command window, and not the
/// overall size of the command window buffer: the width is
/// `right - left + 1` and the height is `bottom - top + 1` of the visible
/// window. An invalid handle, a failed query, and a window whose bounds do
/// not span a positive 16-bit count along both axes give `None`.
pub fn terminal_size(probe: ConsoleProbe) -> (size: Option<Size>)
    ensures
        size == size_of_console(probe),
        size matches Some((width, height)) ==> width.0 > 0 && height.0 > 0,
{
    match probe {
        ConsoleProbe::InvalidHandle => None,
        ConsoleProbe::QueryFailed => None,
        ConsoleProbe::Reported(info) => {
            let columns = dimension(info.window.left, info.window.right);
            let rows = dimension(info.window.top, info.window.bottom);
            match (columns, rows) {
                (Some(columns), Some(rows)) => Some((Width(columns), Height(rows))),
                _ => None,
            }
        },
    }
}

/// Returns the size of the terminal with its pixel extent, which a console
/// never reports: the third item is always `None`.
pub fn terminal_size_full(probe: ConsoleProbe) -> (full: Option<FullSize>)
    ensures
        full == full_size_of_console(probe),
        full matches Some((_, _, pixels)) ==> pixels is None,
{
    match terminal_size(probe) {
        Some((width, height)) => Some((width, height, None)),
        None => None,
    }
}

/// For a window whose right and bottom bounds are not before its left and
/// top bounds, and which is not wider or taller than a 16-bit count, the
/// width is `right - left + 1` and the height is `bottom - top + 1`.
pub proof fn lemma_size_is_visible_window(window: WindowRect)
    requires
        window.left <= window.right,
        window.top <= window.bottom,
        span(window.left, window.right) <= u16::MAX,
        span(window.top, window.bottom) <= u16::MAX,
    ensures
        size_of_window(window) matches Some((width, height)) && width.0 == window.right
            - window.left + 1 && height.0 == window.bottom - window.top + 1,
{
}

/// The size of the screen buffer plays no part: two reports with the same
/// visible window amount to the same size.
pub proof fn lemma_buffer_size_is_ignored(one: ScreenBufferInfo, other: ScreenBufferInfo)
    requires
        one.window == other.window,
    ensures
        size_of_console(ConsoleProbe::Reported(one)) == size_of_console(
            ConsoleProbe::Reported(other),
        ),
{
}

/// A probe of the console amounts to a size exactly when the query succeeded
/// and the visible window spans a positive 16-bit count along both axes; the
/// size then has no zero dimension.
pub proof fn lemma_console_available_iff(probe: ConsoleProbe)
    ensures
        size_of_console(probe) is Some <==> (probe matches ConsoleProbe::Reported(info) && 1
            <= span(info.window.left, info.window.right) <= u16::MAX && 1 <= span(
            info.window.top,
            info.window.bottom,
        ) <= u16::MAX),
        size_of_console(probe) matches Some((width, height)) ==> width.0 != 0 && height.0 != 0,
{
}

} // verus!
