pub mod basics;
pub mod display;
pub mod executor;
pub mod font;
pub mod laws;
pub mod program;
pub mod semantics;
pub mod vm;
