//! The managers of a process and of its threads.
pub use crate::action::SignalActions;
pub use crate::process::ProcessSignalManager;
pub use crate::thread::ThreadSignalManager;
