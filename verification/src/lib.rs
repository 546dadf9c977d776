pub mod error;
pub mod json;
pub mod operations;
pub mod query;
pub mod units;
pub mod util;
