//! The primitives needed to run the app as a server, regardless of framework.
pub mod build_error_page;
pub mod html_shell;
pub mod options;
pub mod path;
pub mod render;
