//! The window size that a pseudo-terminal is given.

use vstd::prelude::*;

verus! {

/// The columns of a pseudo-terminal where nothing else is known.
pub const DEFAULT_COLUMNS: u16 = 80;

/// The rows of a pseudo-terminal where nothing else is known.
pub const DEFAULT_ROWS: u16 = 24;

/// A terminal's size in character cells. It is what programs that ask for
/// the size are told; nothing is drawn by it.
#[derive(Clone, Copy, Debug, PartialEq, Eq, Structural)]
pub struct WindowSize {
    pub columns: u16,
    pub rows: u16,
}

impl WindowSize {
    /// 80 columns by 24 rows.
    pub open spec fn fixed_size() -> WindowSize {
        WindowSize { columns: DEFAULT_COLUMNS, rows: DEFAULT_ROWS }
    }

    /// The size asked for: each of `columns` and `rows` where it is given,
    /// else that of the real terminal where one is attached, else the fixed
    /// size.
    pub open spec fn resolved(
        terminal: Option<WindowSize>,
        columns: Option<u16>,
        rows: Option<u16>,
    ) -> WindowSize {
        let base = match terminal {
            Some(size) => size,
            None => Self::fixed_size(),
        };
        WindowSize {
            columns: match columns {
                Some(columns) => columns,
                None => base.columns,
            },
            rows: match rows {
                Some(rows) => rows,
                None => base.rows,
            },
        }
    }

    /// The fixed size: 80 columns by 24 rows.
    pub fn fixed() -> (size: WindowSize)
        ensures
            size == Self::fixed_size(),
            size.columns == 80,
            size.rows == 24,
    {
        WindowSize { columns: DEFAULT_COLUMNS, rows: DEFAULT_ROWS }
    }

    /// The size to give a pseudo-terminal: the real terminal's size, where
    /// `terminal` holds one, else the fixed size, with `columns` and `rows`
    /// each overriding its part.
    pub fn resolve(terminal: Option<WindowSize>, columns: Option<u16>, rows: Option<u16>) -> (size:
        WindowSize)
        ensures
            size == Self::resolved(terminal, columns, rows),
    {
        let base = match terminal {
            Some(size) => size,
            None => Self::fixed(),
        };
        WindowSize {
            columns: match columns {
                Some(columns) => columns,
                None => base.columns,
            },
            rows: match rows {
                Some(rows) => rows,
                None => base.rows,
            },
        }
    }
}

} // verus!
