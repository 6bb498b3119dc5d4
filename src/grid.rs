use vstd::prelude::*;

use crate::error::HexError;
use crate::letters::Letters;
use crate::numeral::{encode, render, AsLetters};

verus! {

/// A zero-based column position in the grid.
#[derive(Clone, Copy, Debug, Default, PartialEq, Eq, Structural, PartialOrd, Ord, Hash)]
pub struct Column(pub usize);

impl Column {
    /// The zero-based position.
    pub fn value(&self) -> (r: usize)
        ensures
            r == self.0,
    {
        self.0
    }
}

impl From<usize> for Column {
    fn from(value: usize) -> (r: Column)
        ensures
            r.0 == value,
    {
        Column(value)
    }
}

impl vstd::std_specs::convert::FromSpecImpl<usize> for Column {
    open spec fn obeys_from_spec() -> bool {
        true
    }

    open spec fn from_spec(v: usize) -> Column {
        Column(v)
    }
}

impl AsLetters for Column {
    open spec fn grid_index(&self) -> nat {
        self.0 as nat
    }

    fn as_letters(&self) -> (r: Vec<Letters>) {
        encode(self.0)
    }

    fn from_letters_to_string(letters: &[Letters]) -> (r: Result<String, HexError>) {
        render(letters)
    }
}

/// A zero-based row position in the grid.
#[derive(Clone, Copy, Debug, Default, PartialEq, Eq, Structural, PartialOrd, Ord, Hash)]
pub struct Row(pub usize);

impl Row {
    /// The zero-based position.
    pub fn value(&self) -> (r: usize)
        ensures
            r == self.0,
    {
        self.0
    }
}

impl From<usize> for Row {
    fn from(value: usize) -> (r: Row)
        ensures
            r.0 == value,
    {
        Row(value)
    }
}

impl vstd::std_specs::convert::FromSpecImpl<usize> for Row {
    open spec fn obeys_from_spec() -> bool {
        true
    }

    open spec fn from_spec(v: usize) -> Row {
        Row(v)
    }
}

impl AsLetters for Row {
    open spec fn grid_index(&self) -> nat {
        self.0 as nat
    }

    fn as_letters(&self) -> (r: Vec<Letters>) {
        encode(self.0)
    }

    fn from_letters_to_string(letters: &[Letters]) -> (r: Result<String, HexError>) {
        render(letters)
    }
}

/// A cell's identity in the grid: its row, then its column. The derived
/// order compares rows first and columns second.
#[derive(Clone, Copy, Debug, Default, PartialEq, Eq, Structural, PartialOrd, Ord, Hash)]
pub struct Coordinate(pub Row, pub Column);

impl Coordinate {
    /// The cell at `row` and `column`.
    pub fn new(row: Row, column: Column) -> (r: Coordinate)
        ensures
            r.0 == row,
            r.1 == column,
    {
        Coordinate(row, column)
    }

    /// The cell's row.
    pub fn row(&self) -> (r: Row)
        ensures
            r == self.0,
    {
        self.0
    }

    /// The cell's column.
    pub fn column(&self) -> (r: Column)
        ensures
            r == self.1,
    {
        self.1
    }
}

/// A stroke thickness in whole pixels.
#[derive(Clone, Copy, Debug, PartialEq, Eq, Structural, PartialOrd, Ord, Hash)]
pub struct Pixel(pub usize);

impl Pixel {
    /// The thickness in pixels.
    pub fn value(&self) -> (r: usize)
        ensures
            r == self.0,
    {
        self.0
    }
}

impl Default for Pixel {
    fn default() -> (r: Pixel)
        ensures
            r.0 == 5,
    {
        Pixel(5)
    }
}

impl From<usize> for Pixel {
    fn from(value: usize) -> (r: Pixel)
        ensures
            r.0 == value,
    {
        Pixel(value)
    }
}

impl vstd::std_specs::convert::FromSpecImpl<usize> for Pixel {
    open spec fn obeys_from_spec() -> bool {
        true
    }

    open spec fn from_spec(v: usize) -> Pixel {
        Pixel(v)
    }
}

} // verus!
