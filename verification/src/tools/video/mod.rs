pub mod args;
pub mod probe;
pub mod process;
