pub mod document;
pub mod error;
pub mod greeting;
pub mod identity;
pub mod laws;
pub mod session;
pub mod template;
