pub mod buffers;
pub mod piq;
pub mod transfers;
pub mod stage;
pub mod shadow_law;
