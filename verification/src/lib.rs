//! The verified core of an interactive process monitor: the row selection,
//! the refresh schedule, the key bindings and the control loop that ties
//! them together. Drawing, reading keys, enumerating processes and sending
//! signals are left to the program that drives this library.

pub mod event_loop;
pub mod input;
pub mod process;
pub mod scheduler;
pub mod selection;
pub mod state;
