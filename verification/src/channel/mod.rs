pub mod blocking;
pub mod thread;
