pub mod fmt;
pub mod range;
