pub mod typing;
pub mod unsupported;
