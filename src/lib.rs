pub mod isa;
pub mod laws;
pub mod loader;
pub mod machine;
pub mod memory;
pub mod regs;
pub mod render;
