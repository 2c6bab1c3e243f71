pub mod attribute;
pub mod error;
pub mod example;
pub mod gates;
pub mod http;
pub mod logger;
pub mod origin;
pub mod wire;

pub use error::Error;
pub use gates::Gates;
pub use origin::Origin;
