//! The message side of the service: what a delivered request becomes, and
//! how its outcome is published.

pub mod handler;
pub mod publisher;

pub use handler::MessageHandler;
pub use publisher::Publisher;
