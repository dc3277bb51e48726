//! A world-clock library: it resolves city names to timezone identifiers
//! through a static table, and renders 24-hour clock strips in which each
//! city's hours are rotated to line up with the viewer's local day, with
//! workday hours and the current hour highlighted.

pub mod clock;
pub mod hours;
pub mod row;
pub mod style;
pub mod table;
