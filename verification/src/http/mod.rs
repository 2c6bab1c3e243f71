pub mod context;
pub mod error;
pub mod exchange;
pub mod gates;
pub mod instance;
pub mod worker;

pub use context::Context;
pub use error::Error;
pub use gates::Gates;
pub use instance::Instance;
pub use worker::Worker;
