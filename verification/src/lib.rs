//! A Pomodoro session timer: a small state machine that cycles through focus
//! and break intervals, driven by one-second ticks and user commands.

pub mod control;
pub mod session;

pub use control::KeyEvent;
pub use control::KeyInput;
pub use control::PressKind;
pub use session::App;
pub use session::Command;
pub use session::IntervalKind;
pub use session::Screen;
