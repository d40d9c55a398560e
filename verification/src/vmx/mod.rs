//! Intel VT-x specific state and logic.

pub mod definitions;
pub mod vcpu;
pub mod percpu;
pub mod vmcs;
pub mod structs;
