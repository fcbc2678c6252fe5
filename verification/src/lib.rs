//! Selection of one value out of a range or out of a collection, in which no
//! candidate is preferred: each is selected, by a continuation of its own.
//!
//! A selection starts from a closed interval of candidates, which `resolve`
//! makes of a range and `indices` of a collection. A continuation that holds
//! an interval of several candidates duplicates itself; of the two
//! continuations that this leaves, the child goes on with the candidates above
//! the midpoint and the parent with those up to it. A continuation that holds
//! a single candidate has selected it.
//!
//! The library decides: `Interval::action` says what a continuation does
//! next, and `Interval::narrow` what it goes on with. Its caller duplicates,
//! and says by a `Branch` which continuation it then is. Where nothing is to
//! be duplicated, `random_diagnostic` and `random_diagnostic_in` yield the
//! midpoint in place of a selection, and `Interval::replay` yields what the
//! continuation of a given path selects.
//!
//! Nothing limits the number of continuations but the number of candidates,
//! which is at most `index_limit()`. The module `continuations` proves that
//! there is one continuation for each candidate, after a number of
//! duplications that is logarithmic in their number; and that the midpoint,
//! rounded as it is, never parts minus one from zero, so that an interval
//! which holds both selects neither.
pub mod bounds;
pub mod collection;
pub mod continuations;
pub mod error;
pub mod interval;
pub mod laws;
pub mod math;
pub mod signed;
pub mod unsigned;

pub use bounds::{lower_limit, random_diagnostic, resolution, resolve, upper_limit, Bound};
pub use collection::{
    admission, indices, project, random_diagnostic_in, validate_count, Policy,
};
pub use error::Error;
pub use interval::{
    closed_interval, diagnostic_value, index_limit, midpoint, narrowed, reaches, Action, Branch,
    Interval,
};
pub use math::{half, Math};
