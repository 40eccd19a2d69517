//! The examples as the classes show them, where they differ from the full
//! files.

pub mod enums;
pub mod generics;
pub mod ownership;
pub mod traits;
