//! Leveled logging at the tail of an `Option` or `Result` expression.
//!
//! Each method takes a value, emits at most one line through a [`Sink`], and
//! gives the value back as it came, so that it can stand in the middle of a
//! chain:
//!
//! ```
//! use logchop::{OptionLogger, Sink};
//!
//! let mut sink = Sink::new();
//! let width = Some(42).info_some(&mut sink, "found");
//! assert_eq!(width, Some(42));
//! ```
//!
//! There are two families for each of the two types. [`OptionLogger`] and
//! [`ResultLogger`] show the wrapped value through `Debug`, and emit without
//! asking whether the level is enabled. [`OptionLogFormatter`] and
//! [`ResultLogFormatter`] take a formatter, and run it only if the level is
//! enabled and the value is on the method's side.
//!
//! What a method does to the sink is stated over the sink's history, a ghost
//! record of the questions put to the sink and of the lines emitted.

pub mod option_logger;
pub mod result_logger;
pub mod severity;
pub mod sink;
pub mod text;

pub use option_logger::{OptionLogFormatter, OptionLogger};
pub use result_logger::{ResultLogFormatter, ResultLogger};
pub use severity::Severity;
pub use sink::{Event, Sink};
