//! Templates: the properties pages are rendered with, the states a template
//! can generate, the results of state generator functions, and storage of
//! entities.
pub mod entity;
pub mod fn_types;
pub mod render_ctx;
pub mod states;
pub mod widget_component;
