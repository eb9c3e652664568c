//! Queries over a table of hardware architectures and their characteristics.

pub mod arch;
pub mod error;
pub mod feat;
pub mod info;
pub mod load;
pub mod parse;
pub mod report;
pub mod request;
