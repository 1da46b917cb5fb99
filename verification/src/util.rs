//! Small types shared by the rest.

pub mod size;
