//! The state platform: the page state stores, freezing preferences, delayed
//! state and global state creation.
pub mod delayed;
pub mod freeze;
pub mod global_state;
pub mod live_reload;
pub mod page_state_store;
pub mod rx_state;
pub mod state_generator_info;
pub mod state_store;
pub mod template_state;
pub mod markers;
pub mod rx_collections;
