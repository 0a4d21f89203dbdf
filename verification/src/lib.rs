//! Build stamps: the version-control state and the time of a build, gathered
//! while the program is built and read back while it runs.

pub mod collection;
pub mod compile_time;
pub mod literal;
pub mod stamp;
pub mod text;

pub use stamp::BuildStamp;
