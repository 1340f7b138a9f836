//! Review histories and parameter fitting for a spaced-repetition scheduler.
//!
//! The crate holds the integer side of a scheduling boundary: review records,
//! length-tagged review histories, the items that own them, and the fitting
//! of model parameters from a set of items. Ownership is carried by the
//! types: a constructor hands out a `Box`, and the matching release function
//! takes it back by value, so a value is released at most once and never
//! read afterwards.
//!
//! Model parameters are single-precision values. They pass through this
//! crate as their IEEE-754 bit patterns, one `u32` each, and are never
//! interpreted here.

pub mod item;
pub mod review;
pub mod training;

pub use crate::item::{fsrs_item_free, fsrs_item_new, FSRSItem, FsrsItems};
pub use crate::review::{fsrs_review_free, fsrs_review_new, FSRSReview, FsrsReviews};
pub use crate::training::{
    fsrs_compute_parameters, fsrs_compute_parameters_checked, fsrs_parameters_free,
};
