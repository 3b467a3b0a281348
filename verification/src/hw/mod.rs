//! The hardware the kernel drives: the interrupt controller and the system
//! timer, each as the values of its registers.

pub mod interrupt;
pub mod timer;
