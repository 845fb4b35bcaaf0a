//! Replace every match of a pattern in a text, as the command line tool
//! `quickreplace` does: the rules of the tool, without its input and output.

pub mod arguments;
pub mod decimal;
pub mod failure;
pub mod pattern;
pub mod pipeline;
pub mod report;
pub mod run;
pub mod style;
