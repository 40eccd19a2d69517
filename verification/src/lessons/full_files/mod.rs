//! The examples as the full files show them, where they differ from the
//! classes.

pub mod basics;
pub mod enums;
pub mod generics;
pub mod ownership;
pub mod traits;
