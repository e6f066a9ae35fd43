//! Documentation generator for C headers: reads the lines of a header,
//! extracts its includes, objects and functions together with their
//! comments, and renders them as Markdown pages with a sidebar.

pub mod file_writer;
pub mod page;
pub mod parser;
pub mod text;
pub mod utils;
