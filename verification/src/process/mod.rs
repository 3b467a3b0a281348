pub mod laws;
pub mod process;
pub mod scheduler;
pub mod stack;
pub mod state;

pub use self::process::{Id, Process};
pub use self::scheduler::{Bootstrap, GlobalScheduler, Scan, Scheduler};
pub use self::stack::Stack;
pub use self::state::{EventPoll, State};
