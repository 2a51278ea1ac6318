//! Typed physical quantities held in an exact canonical representation.
//!
//! A length is stored as a whole number of nanometers, so converting it
//! between units never loses precision; overflow of that count is reported
//! instead of wrapping. The remaining modules hold small helpers used by the
//! console front ends that sit around the quantity core.
pub mod length;
pub mod outcomes;
pub mod text;
pub mod users;
