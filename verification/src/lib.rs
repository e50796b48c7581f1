//! A bridge between natively compiled extension code and a scripting host.
//!
//! The host exchanges values with an extension as tagged cells. This crate
//! holds the cell itself, the conversions between native values and cells,
//! the filling of parameter slots from a call, the building and walking of
//! tables, and the reference-count protocol that governs the release of a
//! host string. Every function carries a contract that the verifier proves.
//!
//! The crate works on values: a cell here owns what it points to. Reading
//! the host's memory into such values, writing them back through the
//! host's entry points and handing memory to an allocator is left to the
//! glue around this crate, which does what the functions here decide.

pub mod zend;
