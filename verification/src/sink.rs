//! The logging facade as this crate sees it: a question, [`Sink::enabled`], and
//! an action, [`Sink::emit`], with a record of both.
//!
//! The facade is the `log` crate. It keeps two caps on the level of a line,
//! one fixed when it was built and one that the process sets, and a logger
//! that the process has installed. A line that is emitted goes to the logger
//! if its level is within both caps. A level is enabled if it is within both
//! caps and the logger says that it takes such lines.

use crate::severity::Severity;
use vstd::prelude::*;

verus! {

/// Something that went through a [`Sink`].
pub ghost enum Event {
    /// The sink was asked whether lines of this target and level are enabled,
    /// and gave this answer.
    Asked { target: Seq<char>, level: Severity, answer: bool },
    /// A line of this target, level and text was emitted.
    Emitted { target: Seq<char>, level: Severity, text: Seq<char> },
}

/// How many lines a history holds.
pub open spec fn emissions(history: Seq<Event>) -> nat
    decreases history.len(),
{
    if history.len() == 0 {
        0
    } else {
        let before = emissions(history.drop_last());
        if history.last() is Emitted {
            before + 1
        } else {
            before
        }
    }
}

/// One event more is one line more if the event is a line, and none if it is
/// a question.
pub proof fn emissions_push(history: Seq<Event>, event: Event)
    ensures
        emissions(history.push(event)) == emissions(history) + if event is Emitted {
            1nat
        } else {
            0nat
        },
{
    assert(history.push(event).drop_last() =~= history);
}

/// The answer to the question that stands in `after` right behind `before`.
pub open spec fn answer_after(before: Seq<Event>, after: Seq<Event>) -> bool
    recommends
        before.len() < after.len(),
        after[before.len() as int] is Asked,
{
    after[before.len() as int]->answer
}

/// The facade's own type for a severity, `log::Level`.
#[verifier::external_type_specification]
#[verifier::external_body]
pub struct ExLevel(log::Level);

/// What `write!` makes of a format string and its arguments.
#[verifier::external_type_specification]
#[verifier::external_body]
pub struct ExArguments<'a>(core::fmt::Arguments<'a>);

/// Gives the variant of `log::Level` that bears the same name.
#[verifier::external_body]
fn facade_level(level: Severity) -> log::Level {
    match level {
        Severity::Trace => log::Level::Trace,
        Severity::Debug => log::Level::Debug,
        Severity::Info => log::Level::Info,
        Severity::Warn => log::Level::Warn,
        Severity::Error => log::Level::Error,
    }
}

/// Compares a level with `log::STATIC_MAX_LEVEL`, the cap that was fixed when
/// the facade was built. Nothing is claimed of the answer.
#[verifier::external_body]
fn within_static_max(level: log::Level) -> bool {
    level <= log::STATIC_MAX_LEVEL
}

/// Compares a level with `log::max_level()`, the cap that the process has set
/// for now. Nothing is claimed of the answer.
#[verifier::external_body]
fn within_max(level: log::Level) -> bool {
    level <= log::max_level()
}

/// Asks the installed logger, `log::logger()`, whether it would take a line of
/// this level and target (`Log::enabled`). Nothing is claimed of the answer.
#[verifier::external_body]
fn logger_enabled(level: log::Level, target: &str) -> bool {
    log::logger().enabled(&log::Metadata::builder().level(level).target(target).build())
}

/// Takes what `write!` makes of a format string and its arguments, and hands
/// it to a function.
struct Outlet<F>(F);

impl<F: Fn(core::fmt::Arguments<'_>)> Outlet<F> {
    /// Calls the function on `args`. `write!` on an outlet ends here.
    fn write_fmt(&self, args: core::fmt::Arguments<'_>)
        requires
            self.0.requires((args,)),
    {
        (self.0)(args)
    }
}

/// Hands `text` to the installed logger as one record of the given level and
/// target (`Log::log` on `log::logger()`). The text reaches the record through
/// `write!` on an [`Outlet`].
#[verifier::external_body]
fn logger_log(level: log::Level, target: &str, text: &str) {
    let outlet = Outlet(
        |args: core::fmt::Arguments<'_>|
            log::logger().log(
                &log::Record::builder().level(level).target(target).args(args).build(),
            ),
    );
    write!(outlet, "{}", text);
}

/// A handle on the process-wide logging facade, which keeps a record of what
/// went through it. The record is ghost: the handle itself holds nothing.
pub struct Sink {
    history: Ghost<Seq<Event>>,
}

impl Sink {
    /// What went through this handle, oldest first.
    pub closed spec fn history(&self) -> Seq<Event> {
        self.history@
    }

    /// A handle through which nothing has gone yet.
    pub fn new() -> (sink: Sink)
        ensures
            sink.history() == Seq::<Event>::empty(),
    {
        Sink { history: Ghost(Seq::empty()) }
    }

    /// Whether a line of this target and level is enabled: the level is within
    /// both caps of the facade, and the installed logger says that it takes
    /// such a line. The answer is the facade's; it goes into the record.
    pub fn enabled(&mut self, target: &str, level: Severity) -> (answer: bool)
        ensures
            final(self).history() == old(self).history().push(
                Event::Asked { target: target@, level, answer },
            ),
    {
        let outside = facade_level(level);
        let answer = within_static_max(outside) && within_max(outside) && logger_enabled(
            outside,
            target,
        );
        self.history = Ghost(self.history@.push(Event::Asked { target: target@, level, answer }));
        answer
    }

    /// Emits one line. The facade drops it if its level is beyond one of the
    /// two caps, and hands it to the installed logger if not; what the logger
    /// makes of it is the logger's business.
    pub fn emit(&mut self, target: &str, level: Severity, text: &str)
        ensures
            final(self).history() == old(self).history().push(
                Event::Emitted { target: target@, level, text: text@ },
            ),
    {
        let outside = facade_level(level);
        if within_static_max(outside) && within_max(outside) {
            logger_log(outside, target, text);
        }
        self.history = Ghost(
            self.history@.push(Event::Emitted { target: target@, level, text: text@ }),
        );
    }
}

} // verus!
