//! Partial style records for a declarative UI layer, a fluent builder that
//! fills them in, and the cascade that resolves a stack of them into one
//! concrete style.
//!
//! Fractional quantities (lengths, colour channels, flex factors) are held as
//! whole numbers of thousandths, so that every value compares exactly.

pub mod units;
pub mod shadow;
pub mod style_kinds;
pub mod refinement;
pub mod cascade;
pub mod styled;
