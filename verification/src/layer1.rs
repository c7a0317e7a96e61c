//! The plain types that the layers above the store share, and a stand-in for
//! a database provider.

pub mod types;
pub mod database;
pub mod sealed;
pub mod inference;
