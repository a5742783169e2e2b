//! Layout engine for a one-page monthly on-the-job-training timesheet.
//!
//! The crate turns a year, a month and a coordinator's name into an ordered
//! plan of lines, rectangles and text runs. All lengths are exact: they are
//! whole numbers of ticks, sixty-six to the typographic point.

pub mod calendar;
pub mod categories;
pub mod form;
pub mod geometry;
pub mod layout;
pub mod primitive;
pub mod schedule;
pub mod structure;
pub mod text;
pub mod wording;

pub use crate::calendar::{generate_date_strings, CalendarDate, CalendarError};
pub use crate::form::{build_plan, FormParameters};
pub use crate::layout::compose_plan;
pub use crate::primitive::{DrawingPlan, DrawingPrimitive, FillColor, FontWeight};
pub use crate::schedule::{expand_range, output_path};
pub use crate::text::generate_monthyear;
