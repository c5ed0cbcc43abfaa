//! The page's sections, each rendered as maud renders its markup.
pub mod contention;
pub mod counter;
pub mod inventory;
