//! Native side of a desktop map editor: the decisions behind the file
//! commands that the web frontend invokes, the menu dispatch, and the
//! open-workspace / open-file protocol that runs a picker, reads a file and
//! hands the result to the frontend.
pub mod files;
pub mod menu;
pub mod open;
