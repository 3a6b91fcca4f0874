//! A small diagnostics library: a greeting formatter and the pure halves of
//! two HTTP connectivity probes. The probes' network transport lives outside
//! this crate; here stand the request descriptors a probe sends and the
//! report text it builds from a transport outcome.

pub mod decimal;
pub mod greeting;
pub mod probe;
