//! Keeps DNS address records pointed at the machine's current public
//! addresses. The library holds the decisions; the caller performs the
//! network requests that the library asks for.

pub mod cache;
pub mod client;
pub mod config;
pub mod error;
pub mod record;
pub mod run;
pub mod text;
pub mod util;
