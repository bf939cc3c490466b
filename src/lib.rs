//! Typed access to a paginated content API: requests, their execution, and
//! streams over result pages.

pub mod executor;
pub mod maybe_url;
pub mod primitives;
pub mod requests;
pub mod sow;
pub mod stream;

