pub mod bus;
pub mod cpu;
pub mod dmac;
pub mod gif;
pub mod gs;
pub mod memory;
pub mod program;
pub mod rdram;
pub mod scheduler;
pub mod timer;
