//! Byte counting for readers, writers and seekers.
//!
//! [`Counter`] wraps an I/O object and tallies the bytes read from it and the
//! bytes written to it, each direction on its own. [`Progress`] adds optional
//! expected totals to a counter, so that the share of the work that is done can
//! be reported.
//!
//! The tallies are modelled by [`ByteCounts`]; every operation states in its
//! contract how it moves the tallies of the wrapper it is called on.

use vstd::prelude::*;

pub use counter::{ByteCounts, Counter, Transfer};
pub use progress::{Progress, ProgressState};

mod counter;
mod progress;
mod inner;

pub mod laws;

pub mod prelude;
