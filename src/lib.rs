//! Input-method composition support for a window: where the candidate list is
//! placed, and how a composition string and its cursor are read from the
//! native input-method context.
//!
//! The native calls themselves are made by the caller; this library decides
//! what to ask for and what the answers mean.

pub mod cursor;
pub mod placement;
pub mod read;

pub use cursor::{cursor_byte_offset, cursor_code_units};
pub use placement::{candidate_window_forms, CandidateForm, PlacementStyle, Point, Rect};
pub use read::{
    CompositionRead, ReadAction, ReadEvent, GCS_COMPSTR, GCS_CURSORPOS, GCS_RESULTSTR,
    IMM_ERROR_GENERAL, IMM_ERROR_NODATA,
};
