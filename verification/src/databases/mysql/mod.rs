//! MySQL: versions, the client tools and how they are run.
pub mod connection;
pub mod mysql_docker;
pub mod version;
pub mod tools;
pub mod utilities;
