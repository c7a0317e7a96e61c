//! The connection pool, its connections, and the cursor over query results.

pub mod error;
pub mod record;
pub mod query;
pub mod connection;
pub mod connection_pool;
pub mod laws;

pub use connection::{ConnectionConfig, CozoConnection, ProbeOutcome};
pub use connection_pool::{ConnectionPoolConfig, CozoConnectionPool};
pub use error::CozoError;
pub use query::QueryStream;
pub use record::CodeRecord;
