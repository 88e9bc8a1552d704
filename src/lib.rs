//! Event preparation for a crash reporting client: merging of ambient scope
//! data into events, configuration defaults, stack frame classification and
//! the decisions of the client around its delivery channel.

pub mod text;
pub mod crate_name;
pub mod protocol;
pub mod options;
pub mod frames;
pub mod prepare;
pub mod client;
