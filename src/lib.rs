pub mod ack_manager;
pub mod address;
pub mod cache;
pub mod event;
pub mod messenger;
pub mod model;
pub mod retry;
