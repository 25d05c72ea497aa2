//! Player statistics for the two Division games: upstream session handling,
//! identity resolution with a local history store, batch assembly and the
//! mapping of raw statistic records into typed reports.

pub mod batch;
pub mod error;
pub mod profile;
pub mod resolve;
pub mod session;
pub mod stats;
pub mod status;
pub mod store;
pub mod text;
pub mod upstream;
