//! Decision logic for inspecting, creating and removing NTFS directory
//! junctions, and for reporting every junction found below a directory.
//!
//! The library never touches the filesystem. The caller performs each
//! platform operation and hands its answer in as a plain value; the functions
//! here decide what that answer means and what has to happen next.

pub mod error;
pub mod operations;
pub mod path;
pub mod reporter;
pub mod request;
pub mod resolver;
pub mod text;
