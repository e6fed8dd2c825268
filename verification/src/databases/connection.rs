//! The connection settings, under the path that older callers use.
pub use super::{ConnectionType, DatabaseConfig};
