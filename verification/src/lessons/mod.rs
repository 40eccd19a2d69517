//! The examples of the course, one module for each topic.

pub mod basics;
pub mod classes;
pub mod closures;
pub mod enums;
pub mod fprules;
pub mod full_files;
pub mod generics;
pub mod heap;
pub mod iterators;
pub mod lifetimes;
pub mod maps;
pub mod modules;
pub mod oop;
pub mod ownership;
pub mod questions;
pub mod structs;
pub mod structshelper;
pub mod traits;
