//! Remote-control input handling.
pub mod tv_input_manager;
