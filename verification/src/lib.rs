//! Typed stages and the processors that run them.
//!
//! A [`Task`] is the input of a named stage and fixes the type of the stage's
//! output. A [`Processor`] runs one task to its end and returns the output or a
//! failure. A processor may be held in a box, or behind a handle that hides
//! which processor it is, and is then used as if it were held directly.
//! [`DaemonProcessor`] is the processor of the empty stage: it does nothing and
//! always succeeds.
pub mod daemon;
pub mod processor;
pub mod task;

pub use crate::daemon::DaemonProcessor;
pub use crate::processor::Processor;
pub use crate::task::Task;
