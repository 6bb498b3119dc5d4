//! Spreadsheet-style labels for a hexagonal grid: a bijective base-26
//! numeral codec over the letters A to Z, and the exact layout of a
//! flat-topped regular hexagon's vertices and edges.

pub mod error;
pub mod grid;
pub mod hexagon;
pub mod letters;
pub mod numeral;
