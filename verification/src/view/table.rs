//! The corner and joint characters of a table drawn with lines.

use vstd::prelude::*;

verus! {

/// The place of a horizontal line in a table.
#[derive(Debug, Clone, Copy, PartialEq, Eq)]
pub enum Position {
    /// The line that opens the table.
    Top,
    /// A line between two rows.
    Center,
    /// The line that closes the table.
    Bottom,
}

impl Position {
    /// The character at the left end of the line.
    pub fn left(&self) -> (r: &'static str)
        ensures
            r@ == match self {
                Position::Top => "┌"@,
                Position::Center => "├"@,
                Position::Bottom => "└"@,
            },
    {
        match self {
            Position::Top => "┌",
            Position::Center => "├",
            Position::Bottom => "└",
        }
    }

    /// The character where the line meets a column separator.
    pub fn separator(&self) -> (r: &'static str)
        ensures
            r@ == match self {
                Position::Top => "┬"@,
                Position::Center => "┼"@,
                Position::Bottom => "┴"@,
            },
    {
        match self {
            Position::Top => "┬",
            Position::Center => "┼",
            Position::Bottom => "┴",
        }
    }

    /// The character at the right end of the line.
    pub fn right(&self) -> (r: &'static str)
        ensures
            r@ == match self {
                Position::Top => "┐"@,
                Position::Center => "┤"@,
                Position::Bottom => "┘"@,
            },
    {
        match self {
            Position::Top => "┐",
            Position::Center => "┤",
            Position::Bottom => "┘",
        }
    }
}

/// The header line of a table: its columns, each a title and a width, and
/// the place of the line.
pub struct TableHeader<'a> {
    pub columns: Vec<(&'a str, usize)>,
    pub position: Position,
}

} // verus!
