//! Keeps generated JavaScript modules in step with the shader sources they embed.
//!
//! The library holds the decisions of the watcher: which paths form a valid
//! configuration, which source file feeds which module, when a source has
//! changed, and what text the module receives. Reading and writing files,
//! sleeping between polls and parsing the command line are left to the caller.
pub mod chars;
pub mod module_text;
pub mod paths;
pub mod sync;
