//! Binning analysis of correlated time series.
//!
//! An [`Accumulator`] buffers the observations of one quantity in the order in
//! which they were taken. Its `binning` method estimates the mean, the error of
//! the mean, the correlation time and whether the estimate has converged, and
//! hands them out as an [`Analyzed`]. Two such results of independent
//! quantities combine by `+`, `-`, `*` and `/` with propagated errors.
//!
//! The library is generic in the number type. A number type implements
//! [`Scalar`]; the library never looks inside a number. Every contract is
//! therefore stated over the operations of the number type: it says which
//! operation was applied to which operands in which order, and relates each
//! intermediate value to its operands by the operation's own input-output
//! relation.

pub mod scalar;
pub mod series;
pub mod blocks;
pub mod analyzed;
pub mod accumulator;
pub mod text;
pub mod repeatable;

pub use accumulator::Accumulator;
pub use analyzed::Analyzed;
pub use scalar::Scalar;
