//! Log methods for [`Option`]: one line for `Some`, for `None`, or for either,
//! and the option comes back as it went in.

use crate::severity::Severity;
use crate::sink::{answer_after, emissions, emissions_push, Event, Sink};
use crate::text::{label, label_nothing, labelled, nothing, render, renders};
use vstd::prelude::*;

verus! {

/// The target under which the lines of this module go out.
pub const TARGET: &'static str = "logchop::option_logger";

/// The question whether lines of this module are enabled at `level`, with its
/// answer.
pub open spec fn asked(level: Severity, answer: bool) -> Event {
    Event::Asked { target: TARGET@, level, answer }
}

/// A line of this module.
pub open spec fn emitted(level: Severity, text: Seq<char>) -> Event {
    Event::Emitted { target: TARGET@, level, text }
}

/// What [`OptionLogger::log_some`] does to a sink's history. For `Some`: one
/// line more, whose text is the message, `": "` and a rendering of the wrapped
/// value. For `None`: nothing.
pub open spec fn some_logged<T: core::fmt::Debug>(
    value: Option<T>,
    level: Severity,
    message: Seq<char>,
    before: Seq<Event>,
    after: Seq<Event>,
) -> bool {
    match value {
        Some(inner) => exists|rendered: Seq<char>| #[trigger]
            renders(inner, rendered) && after == before.push(
                emitted(level, labelled(message, rendered)),
            ),
        None => after == before,
    }
}

/// What [`OptionLogger::log_none`] does to a sink's history. For `None`: one
/// line more, whose text is the message and `": None"`. For `Some`: nothing.
pub open spec fn none_logged<T>(
    value: Option<T>,
    level: Severity,
    message: Seq<char>,
    before: Seq<Event>,
    after: Seq<Event>,
) -> bool {
    match value {
        Some(_) => after == before,
        None => after == before.push(emitted(level, labelled(message, nothing()))),
    }
}

/// What [`OptionLogger::log`] does to a sink's history: for `Some` what
/// `log_some` does, for `None` what `log_none` does.
pub open spec fn logged<T: core::fmt::Debug>(
    value: Option<T>,
    level: Severity,
    message: Seq<char>,
    before: Seq<Event>,
    after: Seq<Event>,
) -> bool {
    match value {
        Some(_) => some_logged(value, level, message, before, after),
        None => none_logged(value, level, message, before, after),
    }
}

/// Log methods for [`Option`] that show the wrapped value through `Debug`.
///
/// None of them asks whether the level is enabled: the value is rendered and
/// the line emitted whenever the option is on the method's side.
pub trait OptionLogger<T: core::fmt::Debug>: Sized {
    /// The option that `self` is.
    spec fn held(self) -> Option<T>;

    /// Emits a line for `Some` and for `None`; the wrapped value is shown if
    /// `Some`.
    fn log(self, sink: &mut Sink, level: Severity, message: &str) -> (out: Option<T>)
        ensures
            out == self.held(),
            logged(self.held(), level, message@, old(sink).history(), final(sink).history()),
    ;

    /// Emits a line if `Some`, with the wrapped value shown.
    fn log_some(self, sink: &mut Sink, level: Severity, message: &str) -> (out: Option<T>)
        ensures
            out == self.held(),
            some_logged(self.held(), level, message@, old(sink).history(), final(sink).history()),
    ;

    /// Emits a line if `None`.
    fn log_none(self, sink: &mut Sink, level: Severity, message: &str) -> (out: Option<T>)
        ensures
            out == self.held(),
            none_logged(self.held(), level, message@, old(sink).history(), final(sink).history()),
    ;

    /// [`log`](OptionLogger::log) at [`Severity::Trace`].
    fn trace(self, sink: &mut Sink, message: &str) -> (out: Option<T>)
        ensures
            out == self.held(),
            logged(
                self.held(),
                Severity::Trace,
                message@,
                old(sink).history(),
                final(sink).history(),
            ),
    {
        self.log(sink, Severity::Trace, message)
    }

    /// [`log_some`](OptionLogger::log_some) at [`Severity::Trace`].
    fn trace_some(self, sink: &mut Sink, message: &str) -> (out: Option<T>)
        ensures
            out == self.held(),
            some_logged(
                self.held(),
                Severity::Trace,
                message@,
                old(sink).history(),
                final(sink).history(),
            ),
    {
        self.log_some(sink, Severity::Trace, message)
    }

    /// [`log_none`](OptionLogger::log_none) at [`Severity::Trace`].
    fn trace_none(self, sink: &mut Sink, message: &str) -> (out: Option<T>)
        ensures
            out == self.held(),
            none_logged(
                self.held(),
                Severity::Trace,
                message@,
                old(sink).history(),
                final(sink).history(),
            ),
    {
        self.log_none(sink, Severity::Trace, message)
    }

    /// [`log`](OptionLogger::log) at [`Severity::Debug`].
    fn debug(self, sink: &mut Sink, message: &str) -> (out: Option<T>)
        ensures
            out == self.held(),
            logged(
                self.held(),
                Severity::Debug,
                message@,
                old(sink).history(),
                final(sink).history(),
            ),
    {
        self.log(sink, Severity::Debug, message)
    }

    /// [`log_some`](OptionLogger::log_some) at [`Severity::Debug`].
    fn debug_some(self, sink: &mut Sink, message: &str) -> (out: Option<T>)
        ensures
            out == self.held(),
            some_logged(
                self.held(),
                Severity::Debug,
                message@,
                old(sink).history(),
                final(sink).history(),
            ),
    {
        self.log_some(sink, Severity::Debug, message)
    }

    /// [`log_none`](OptionLogger::log_none) at [`Severity::Debug`].
    fn debug_none(self, sink: &mut Sink, message: &str) -> (out: Option<T>)
        ensures
            out == self.held(),
            none_logged(
                self.held(),
                Severity::Debug,
                message@,
                old(sink).history(),
                final(sink).history(),
            ),
    {
        self.log_none(sink, Severity::Debug, message)
    }

    /// [`log`](OptionLogger::log) at [`Severity::Info`].
    fn info(self, sink: &mut Sink, message: &str) -> (out: Option<T>)
        ensures
            out == self.held(),
            logged(
                self.held(),
                Severity::Info,
                message@,
                old(sink).history(),
                final(sink).history(),
            ),
    {
        self.log(sink, Severity::Info, message)
    }

    /// [`log_some`](OptionLogger::log_some) at [`Severity::Info`].
    fn info_some(self, sink: &mut Sink, message: &str) -> (out: Option<T>)
        ensures
            out == self.held(),
            some_logged(
                self.held(),
                Severity::Info,
                message@,
                old(sink).history(),
                final(sink).history(),
            ),
    {
        self.log_some(sink, Severity::Info, message)
    }

    /// [`log_none`](OptionLogger::log_none) at [`Severity::Info`].
    fn info_none(self, sink: &mut Sink, message: &str) -> (out: Option<T>)
        ensures
            out == self.held(),
            none_logged(
                self.held(),
                Severity::Info,
                message@,
                old(sink).history(),
                final(sink).history(),
            ),
    {
        self.log_none(sink, Severity::Info, message)
    }

    /// [`log`](OptionLogger::log) at [`Severity::Warn`].
    fn warn(self, sink: &mut Sink, message: &str) -> (out: Option<T>)
        ensures
            out == self.held(),
            logged(
                self.held(),
                Severity::Warn,
                message@,
                old(sink).history(),
                final(sink).history(),
            ),
    {
        self.log(sink, Severity::Warn, message)
    }

    /// [`log_some`](OptionLogger::log_some) at [`Severity::Warn`].
    fn warn_some(self, sink: &mut Sink, message: &str) -> (out: Option<T>)
        ensures
            out == self.held(),
            some_logged(
                self.held(),
                Severity::Warn,
                message@,
                old(sink).history(),
                final(sink).history(),
            ),
    {
        self.log_some(sink, Severity::Warn, message)
    }

    /// [`log_none`](OptionLogger::log_none) at [`Severity::Warn`].
    fn warn_none(self, sink: &mut Sink, message: &str) -> (out: Option<T>)
        ensures
            out == self.held(),
            none_logged(
                self.held(),
                Severity::Warn,
                message@,
                old(sink).history(),
                final(sink).history(),
            ),
    {
        self.log_none(sink, Severity::Warn, message)
    }

    /// [`log`](OptionLogger::log) at [`Severity::Error`].
    fn error(self, sink: &mut Sink, message: &str) -> (out: Option<T>)
        ensures
            out == self.held(),
            logged(
                self.held(),
                Severity::Error,
                message@,
                old(sink).history(),
                final(sink).history(),
            ),
    {
        self.log(sink, Severity::Error, message)
    }

    /// [`log_some`](OptionLogger::log_some) at [`Severity::Error`].
    fn error_some(self, sink: &mut Sink, message: &str) -> (out: Option<T>)
        ensures
            out == self.held(),
            some_logged(
                self.held(),
                Severity::Error,
                message@,
                old(sink).history(),
                final(sink).history(),
            ),
    {
        self.log_some(sink, Severity::Error, message)
    }

    /// [`log_none`](OptionLogger::log_none) at [`Severity::Error`].
    fn error_none(self, sink: &mut Sink, message: &str) -> (out: Option<T>)
        ensures
            out == self.held(),
            none_logged(
                self.held(),
                Severity::Error,
                message@,
                old(sink).history(),
                final(sink).history(),
            ),
    {
        self.log_none(sink, Severity::Error, message)
    }
}

impl<T: core::fmt::Debug> OptionLogger<T> for Option<T> {
    open spec fn held(self) -> Option<T> {
        self
    }

    fn log(self, sink: &mut Sink, level: Severity, message: &str) -> (out: Option<T>) {
        if self.is_some() {
            self.log_some(sink, level, message)
        } else {
            self.log_none(sink, level, message)
        }
    }

    fn log_some(self, sink: &mut Sink, level: Severity, message: &str) -> (out: Option<T>) {
        match &self {
            Some(inner) => {
                let rendered = render(inner);
                let text = label(message, rendered.as_str());
                sink.emit(TARGET, level, text.as_str());
            },
            None => {},
        }
        self
    }

    fn log_none(self, sink: &mut Sink, level: Severity, message: &str) -> (out: Option<T>) {
        if self.is_none() {
            let text = label_nothing(message);
            sink.emit(TARGET, level, text.as_str());
        }
        self
    }
}

/// Whether the formatter of [`OptionLogFormatter::log_format`] can be called
/// on this option.
pub open spec fn formattable<T, F: FnOnce(&Option<T>) -> String>(value: Option<T>, f: F) -> bool {
    f.requires((&value,))
}

/// Whether the formatter of [`OptionLogFormatter::log_some_format`] can be
/// called on what this option wraps, if it wraps anything.
pub open spec fn some_formattable<T, F: FnOnce(&T) -> String>(value: Option<T>, f: F) -> bool {
    match value {
        Some(inner) => f.requires((&inner,)),
        None => true,
    }
}

/// Whether the formatter of [`OptionLogFormatter::log_none_format`] can be
/// called, if this option is `None`.
pub open spec fn none_formattable<T, F: FnOnce() -> String>(value: Option<T>, f: F) -> bool {
    value is None ==> f.requires(())
}

/// What [`OptionLogFormatter::log_format_when`] does to a sink's history. If
/// `enabled`: one line more, whose text the formatter made of the option. If
/// not: nothing.
pub open spec fn formatted<T, F: FnOnce(&Option<T>) -> String>(
    value: Option<T>,
    f: F,
    enabled: bool,
    level: Severity,
    before: Seq<Event>,
    after: Seq<Event>,
) -> bool {
    if enabled {
        exists|text: String| #[trigger]
            f.ensures((&value,), text) && after == before.push(emitted(level, text@))
    } else {
        after == before
    }
}

/// What [`OptionLogFormatter::log_some_format_when`] does to a sink's history.
/// If `enabled` and `Some`: one line more, whose text the formatter made of
/// the wrapped value. If not: nothing.
pub open spec fn some_formatted<T, F: FnOnce(&T) -> String>(
    value: Option<T>,
    f: F,
    enabled: bool,
    level: Severity,
    before: Seq<Event>,
    after: Seq<Event>,
) -> bool {
    match value {
        Some(inner) if enabled => exists|text: String| #[trigger]
            f.ensures((&inner,), text) && after == before.push(emitted(level, text@)),
        _ => after == before,
    }
}

/// What [`OptionLogFormatter::log_none_format_when`] does to a sink's history.
/// If `enabled` and `None`: one line more, whose text the formatter made. If
/// not: nothing.
pub open spec fn none_formatted<T, F: FnOnce() -> String>(
    value: Option<T>,
    f: F,
    enabled: bool,
    level: Severity,
    before: Seq<Event>,
    after: Seq<Event>,
) -> bool {
    match value {
        None if enabled => exists|text: String| #[trigger]
            f.ensures((), text) && after == before.push(emitted(level, text@)),
        _ => after == before,
    }
}

/// What [`OptionLogFormatter::log_format`] does to a sink's history: the
/// question whether `level` is enabled, with the sink's answer, and then what
/// `log_format_when` does on that answer.
pub open spec fn asked_formatted<T, F: FnOnce(&Option<T>) -> String>(
    value: Option<T>,
    f: F,
    level: Severity,
    before: Seq<Event>,
    after: Seq<Event>,
) -> bool {
    exists|answer: bool|
        formatted(value, f, answer, level, before.push(#[trigger] asked(level, answer)), after)
}

/// What [`OptionLogFormatter::log_some_format`] does to a sink's history: the
/// question whether `level` is enabled, with the sink's answer, and then what
/// `log_some_format_when` does on that answer.
pub open spec fn asked_some_formatted<T, F: FnOnce(&T) -> String>(
    value: Option<T>,
    f: F,
    level: Severity,
    before: Seq<Event>,
    after: Seq<Event>,
) -> bool {
    exists|answer: bool|
        some_formatted(
            value,
            f,
            answer,
            level,
            before.push(#[trigger] asked(level, answer)),
            after,
        )
}

/// What [`OptionLogFormatter::log_none_format`] does to a sink's history: the
/// question whether `level` is enabled, with the sink's answer, and then what
/// `log_none_format_when` does on that answer.
pub open spec fn asked_none_formatted<T, F: FnOnce() -> String>(
    value: Option<T>,
    f: F,
    level: Severity,
    before: Seq<Event>,
    after: Seq<Event>,
) -> bool {
    exists|answer: bool|
        none_formatted(
            value,
            f,
            answer,
            level,
            before.push(#[trigger] asked(level, answer)),
            after,
        )
}

/// Log methods for [`Option`] whose text a formatter of the caller makes.
///
/// The formatter runs only where its line is wanted. The `_when` methods take
/// the answer to "is this level enabled?" as an argument, and ask of the
/// formatter only that it can be called where the answer is yes and the option
/// is on the method's side: on every other input they do not call it. The
/// other methods put the question to the sink themselves and go on as the
/// `_when` method does; as nobody knows the answer beforehand, they ask that
/// the formatter can be called whenever the option is on their side.
pub trait OptionLogFormatter<T>: Sized {
    /// The option that `self` is.
    spec fn held(self) -> Option<T>;

    /// Emits what the formatter makes of the option, if `enabled`.
    fn log_format_when<F>(
        self,
        sink: &mut Sink,
        enabled: bool,
        level: Severity,
        f: F,
    ) -> (out: Option<T>) where F: FnOnce(&Option<T>) -> String
        requires
            enabled ==> formattable(self.held(), f),
        ensures
            out == self.held(),
            formatted(
                self.held(),
                f,
                enabled,
                level,
                old(sink).history(),
                final(sink).history(),
            ),
    ;

    /// Emits what the formatter makes of the wrapped value, if `enabled` and
    /// `Some`.
    fn log_some_format_when<F>(
        self,
        sink: &mut Sink,
        enabled: bool,
        level: Severity,
        f: F,
    ) -> (out: Option<T>) where F: FnOnce(&T) -> String
        requires
            enabled ==> some_formattable(self.held(), f),
        ensures
            out == self.held(),
            some_formatted(
                self.held(),
                f,
                enabled,
                level,
                old(sink).history(),
                final(sink).history(),
            ),
    ;

    /// Emits what the formatter makes, if `enabled` and `None`.
    fn log_none_format_when<F>(
        self,
        sink: &mut Sink,
        enabled: bool,
        level: Severity,
        f: F,
    ) -> (out: Option<T>) where F: FnOnce() -> String
        requires
            enabled ==> none_formattable(self.held(), f),
        ensures
            out == self.held(),
            none_formatted(
                self.held(),
                f,
                enabled,
                level,
                old(sink).history(),
                final(sink).history(),
            ),
    ;

    /// Emits what the formatter makes of the option, if the sink says that
    /// `level` is enabled.
    fn log_format<F>(self, sink: &mut Sink, level: Severity, f: F) -> (out: Option<T>) where
        F: FnOnce(&Option<T>) -> String,

        requires
            formattable(self.held(), f),
        ensures
            out == self.held(),
            asked_formatted(self.held(), f, level, old(sink).history(), final(sink).history()),
    ;

    /// Emits what the formatter makes of the wrapped value, if `Some` and the
    /// sink says that `level` is enabled.
    fn log_some_format<F>(self, sink: &mut Sink, level: Severity, f: F) -> (out: Option<T>) where
        F: FnOnce(&T) -> String,

        requires
            some_formattable(self.held(), f),
        ensures
            out == self.held(),
            asked_some_formatted(
                self.held(),
                f,
                level,
                old(sink).history(),
                final(sink).history(),
            ),
    ;

    /// Emits what the formatter makes, if `None` and the sink says that
    /// `level` is enabled.
    fn log_none_format<F>(self, sink: &mut Sink, level: Severity, f: F) -> (out: Option<T>) where
        F: FnOnce() -> String,

        requires
            none_formattable(self.held(), f),
        ensures
            out == self.held(),
            asked_none_formatted(
                self.held(),
                f,
                level,
                old(sink).history(),
                final(sink).history(),
            ),
    ;

    /// [`log_format`](OptionLogFormatter::log_format) at [`Severity::Trace`].
    fn trace_format<F>(self, sink: &mut Sink, f: F) -> (out: Option<T>) where
        F: FnOnce(&Option<T>) -> String,

        requires
            formattable(self.held(), f),
        ensures
            out == self.held(),
            asked_formatted(
                self.held(),
                f,
                Severity::Trace,
                old(sink).history(),
                final(sink).history(),
            ),
    {
        self.log_format(sink, Severity::Trace, f)
    }

    /// [`log_some_format`](OptionLogFormatter::log_some_format) at [`Severity::Trace`].
    fn trace_some_format<F>(self, sink: &mut Sink, f: F) -> (out: Option<T>) where
        F: FnOnce(&T) -> String,

        requires
            some_formattable(self.held(), f),
        ensures
            out == self.held(),
            asked_some_formatted(
                self.held(),
                f,
                Severity::Trace,
                old(sink).history(),
                final(sink).history(),
            ),
    {
        self.log_some_format(sink, Severity::Trace, f)
    }

    /// [`log_none_format`](OptionLogFormatter::log_none_format) at [`Severity::Trace`].
    fn trace_none_format<F>(self, sink: &mut Sink, f: F) -> (out: Option<T>) where
        F: FnOnce() -> String,

        requires
            none_formattable(self.held(), f),
        ensures
            out == self.held(),
            asked_none_formatted(
                self.held(),
                f,
                Severity::Trace,
                old(sink).history(),
                final(sink).history(),
            ),
    {
        self.log_none_format(sink, Severity::Trace, f)
    }

    /// [`log_format`](OptionLogFormatter::log_format) at [`Severity::Debug`].
    fn debug_format<F>(self, sink: &mut Sink, f: F) -> (out: Option<T>) where
        F: FnOnce(&Option<T>) -> String,

        requires
            formattable(self.held(), f),
        ensures
            out == self.held(),
            asked_formatted(
                self.held(),
                f,
                Severity::Debug,
                old(sink).history(),
                final(sink).history(),
            ),
    {
        self.log_format(sink, Severity::Debug, f)
    }

    /// [`log_some_format`](OptionLogFormatter::log_some_format) at [`Severity::Debug`].
    fn debug_some_format<F>(self, sink: &mut Sink, f: F) -> (out: Option<T>) where
        F: FnOnce(&T) -> String,

        requires
            some_formattable(self.held(), f),
        ensures
            out == self.held(),
            asked_some_formatted(
                self.held(),
                f,
                Severity::Debug,
                old(sink).history(),
                final(sink).history(),
            ),
    {
        self.log_some_format(sink, Severity::Debug, f)
    }

    /// [`log_none_format`](OptionLogFormatter::log_none_format) at [`Severity::Debug`].
    fn debug_none_format<F>(self, sink: &mut Sink, f: F) -> (out: Option<T>) where
        F: FnOnce() -> String,

        requires
            none_formattable(self.held(), f),
        ensures
            out == self.held(),
            asked_none_formatted(
                self.held(),
                f,
                Severity::Debug,
                old(sink).history(),
                final(sink).history(),
            ),
    {
        self.log_none_format(sink, Severity::Debug, f)
    }

    /// [`log_format`](OptionLogFormatter::log_format) at [`Severity::Info`].
    fn info_format<F>(self, sink: &mut Sink, f: F) -> (out: Option<T>) where
        F: FnOnce(&Option<T>) -> String,

        requires
            formattable(self.held(), f),
        ensures
            out == self.held(),
            asked_formatted(
                self.held(),
                f,
                Severity::Info,
                old(sink).history(),
                final(sink).history(),
            ),
    {
        self.log_format(sink, Severity::Info, f)
    }

    /// [`log_some_format`](OptionLogFormatter::log_some_format) at [`Severity::Info`].
    fn info_some_format<F>(self, sink: &mut Sink, f: F) -> (out: Option<T>) where
        F: FnOnce(&T) -> String,

        requires
            some_formattable(self.held(), f),
        ensures
            out == self.held(),
            asked_some_formatted(
                self.held(),
                f,
                Severity::Info,
                old(sink).history(),
                final(sink).history(),
            ),
    {
        self.log_some_format(sink, Severity::Info, f)
    }

    /// [`log_none_format`](OptionLogFormatter::log_none_format) at [`Severity::Info`].
    fn info_none_format<F>(self, sink: &mut Sink, f: F) -> (out: Option<T>) where
        F: FnOnce() -> String,

        requires
            none_formattable(self.held(), f),
        ensures
            out == self.held(),
            asked_none_formatted(
                self.held(),
                f,
                Severity::Info,
                old(sink).history(),
                final(sink).history(),
            ),
    {
        self.log_none_format(sink, Severity::Info, f)
    }

    /// [`log_format`](OptionLogFormatter::log_format) at [`Severity::Warn`].
    fn warn_format<F>(self, sink: &mut Sink, f: F) -> (out: Option<T>) where
        F: FnOnce(&Option<T>) -> String,

        requires
            formattable(self.held(), f),
        ensures
            out == self.held(),
            asked_formatted(
                self.held(),
                f,
                Severity::Warn,
                old(sink).history(),
                final(sink).history(),
            ),
    {
        self.log_format(sink, Severity::Warn, f)
    }

    /// [`log_some_format`](OptionLogFormatter::log_some_format) at [`Severity::Warn`].
    fn warn_some_format<F>(self, sink: &mut Sink, f: F) -> (out: Option<T>) where
        F: FnOnce(&T) -> String,

        requires
            some_formattable(self.held(), f),
        ensures
            out == self.held(),
            asked_some_formatted(
                self.held(),
                f,
                Severity::Warn,
                old(sink).history(),
                final(sink).history(),
            ),
    {
        self.log_some_format(sink, Severity::Warn, f)
    }

    /// [`log_none_format`](OptionLogFormatter::log_none_format) at [`Severity::Warn`].
    fn warn_none_format<F>(self, sink: &mut Sink, f: F) -> (out: Option<T>) where
        F: FnOnce() -> String,

        requires
            none_formattable(self.held(), f),
        ensures
            out == self.held(),
            asked_none_formatted(
                self.held(),
                f,
                Severity::Warn,
                old(sink).history(),
                final(sink).history(),
            ),
    {
        self.log_none_format(sink, Severity::Warn, f)
    }

    /// [`log_format`](OptionLogFormatter::log_format) at [`Severity::Error`].
    fn error_format<F>(self, sink: &mut Sink, f: F) -> (out: Option<T>) where
        F: FnOnce(&Option<T>) -> String,

        requires
            formattable(self.held(), f),
        ensures
            out == self.held(),
            asked_formatted(
                self.held(),
                f,
                Severity::Error,
                old(sink).history(),
                final(sink).history(),
            ),
    {
        self.log_format(sink, Severity::Error, f)
    }

    /// [`log_some_format`](OptionLogFormatter::log_some_format) at [`Severity::Error`].
    fn error_some_format<F>(self, sink: &mut Sink, f: F) -> (out: Option<T>) where
        F: FnOnce(&T) -> String,

        requires
            some_formattable(self.held(), f),
        ensures
            out == self.held(),
            asked_some_formatted(
                self.held(),
                f,
                Severity::Error,
                old(sink).history(),
                final(sink).history(),
            ),
    {
        self.log_some_format(sink, Severity::Error, f)
    }

    /// [`log_none_format`](OptionLogFormatter::log_none_format) at [`Severity::Error`].
    fn error_none_format<F>(self, sink: &mut Sink, f: F) -> (out: Option<T>) where
        F: FnOnce() -> String,

        requires
            none_formattable(self.held(), f),
        ensures
            out == self.held(),
            asked_none_formatted(
                self.held(),
                f,
                Severity::Error,
                old(sink).history(),
                final(sink).history(),
            ),
    {
        self.log_none_format(sink, Severity::Error, f)
    }
}

impl<T> OptionLogFormatter<T> for Option<T> {
    open spec fn held(self) -> Option<T> {
        self
    }

    fn log_format_when<F>(
        self,
        sink: &mut Sink,
        enabled: bool,
        level: Severity,
        f: F,
    ) -> (out: Option<T>) where F: FnOnce(&Option<T>) -> String {
        if enabled {
            let text = f(&self);
            sink.emit(TARGET, level, text.as_str());
        }
        self
    }

    fn log_some_format_when<F>(
        self,
        sink: &mut Sink,
        enabled: bool,
        level: Severity,
        f: F,
    ) -> (out: Option<T>) where F: FnOnce(&T) -> String {
        if enabled {
            match &self {
                Some(inner) => {
                    let text = f(inner);
                    sink.emit(TARGET, level, text.as_str());
                },
                None => {},
            }
        }
        self
    }

    fn log_none_format_when<F>(
        self,
        sink: &mut Sink,
        enabled: bool,
        level: Severity,
        f: F,
    ) -> (out: Option<T>) where F: FnOnce() -> String {
        if enabled && self.is_none() {
            let text = f();
            sink.emit(TARGET, level, text.as_str());
        }
        self
    }

    fn log_format<F>(self, sink: &mut Sink, level: Severity, f: F) -> (out: Option<T>) where
        F: FnOnce(&Option<T>) -> String,
    {
        let enabled = sink.enabled(TARGET, level);
        assert(sink.history() == old(sink).history().push(asked(level, enabled)));
        self.log_format_when(sink, enabled, level, f)
    }

    fn log_some_format<F>(self, sink: &mut Sink, level: Severity, f: F) -> (out: Option<T>) where
        F: FnOnce(&T) -> String,
    {
        let enabled = sink.enabled(TARGET, level);
        assert(sink.history() == old(sink).history().push(asked(level, enabled)));
        self.log_some_format_when(sink, enabled, level, f)
    }

    fn log_none_format<F>(self, sink: &mut Sink, level: Severity, f: F) -> (out: Option<T>) where
        F: FnOnce() -> String,
    {
        let enabled = sink.enabled(TARGET, level);
        assert(sink.history() == old(sink).history().push(asked(level, enabled)));
        self.log_none_format_when(sink, enabled, level, f)
    }
}

/// `log` emits exactly one line, whatever the option is.
pub proof fn log_emits_once<T: core::fmt::Debug>(
    value: Option<T>,
    level: Severity,
    message: Seq<char>,
    before: Seq<Event>,
    after: Seq<Event>,
)
    requires
        logged(value, level, message, before, after),
    ensures
        emissions(after) == emissions(before) + 1,
{
    match value {
        Some(_) => log_some_emits_iff_some(value, level, message, before, after),
        None => log_none_emits_iff_none(value, level, message, before, after),
    }
}

/// `log_some` emits exactly one line if the option is `Some`, and none if it
/// is `None`.
pub proof fn log_some_emits_iff_some<T: core::fmt::Debug>(
    value: Option<T>,
    level: Severity,
    message: Seq<char>,
    before: Seq<Event>,
    after: Seq<Event>,
)
    requires
        some_logged(value, level, message, before, after),
    ensures
        emissions(after) == emissions(before) + if value is Some {
            1nat
        } else {
            0nat
        },
{
    if let Some(inner) = value {
        let rendered = choose|rendered: Seq<char>| #[trigger]
            renders(inner, rendered) && after == before.push(
                emitted(level, labelled(message, rendered)),
            );
        emissions_push(before, emitted(level, labelled(message, rendered)));
    }
}

/// `log_none` emits exactly one line if the option is `None`, and none if it
/// is `Some`.
pub proof fn log_none_emits_iff_none<T>(
    value: Option<T>,
    level: Severity,
    message: Seq<char>,
    before: Seq<Event>,
    after: Seq<Event>,
)
    requires
        none_logged(value, level, message, before, after),
    ensures
        emissions(after) == emissions(before) + if value is None {
            1nat
        } else {
            0nat
        },
{
    if value is None {
        emissions_push(before, emitted(level, labelled(message, nothing())));
    }
}

/// `log_format_when` emits exactly one line if `enabled`; if not, it leaves the
/// history as it was.
pub proof fn format_when_emits_iff_enabled<T, F: FnOnce(&Option<T>) -> String>(
    value: Option<T>,
    f: F,
    enabled: bool,
    level: Severity,
    before: Seq<Event>,
    after: Seq<Event>,
)
    requires
        formatted(value, f, enabled, level, before, after),
    ensures
        !enabled ==> after == before,
        emissions(after) == emissions(before) + if enabled {
            1nat
        } else {
            0nat
        },
{
    if enabled {
        let text = choose|text: String| #[trigger]
            f.ensures((&value,), text) && after == before.push(emitted(level, text@));
        emissions_push(before, emitted(level, text@));
    }
}

/// `log_some_format_when` emits exactly one line if `enabled` and the
/// option is `Some`; if not, it leaves the history as it was.
pub proof fn some_format_when_emits_iff_enabled_and_some<T, F: FnOnce(&T) -> String>(
    value: Option<T>,
    f: F,
    enabled: bool,
    level: Severity,
    before: Seq<Event>,
    after: Seq<Event>,
)
    requires
        some_formatted(value, f, enabled, level, before, after),
    ensures
        !(enabled && value is Some) ==> after == before,
        emissions(after) == emissions(before) + if enabled && value is Some {
            1nat
        } else {
            0nat
        },
{
    if let Some(inner) = value {
        if enabled {
            let text = choose|text: String| #[trigger]
                f.ensures((&inner,), text) && after == before.push(emitted(level, text@));
            emissions_push(before, emitted(level, text@));
        }
    }
}

/// `log_none_format_when` emits exactly one line if `enabled` and the
/// option is `None`; if not, it leaves the history as it was.
pub proof fn none_format_when_emits_iff_enabled_and_none<T, F: FnOnce() -> String>(
    value: Option<T>,
    f: F,
    enabled: bool,
    level: Severity,
    before: Seq<Event>,
    after: Seq<Event>,
)
    requires
        none_formatted(value, f, enabled, level, before, after),
    ensures
        !(enabled && value is None) ==> after == before,
        emissions(after) == emissions(before) + if enabled && value is None {
            1nat
        } else {
            0nat
        },
{
    if enabled && value is None {
        let text = choose|text: String| #[trigger]
            f.ensures((), text) && after == before.push(emitted(level, text@));
        emissions_push(before, emitted(level, text@));
    }
}

/// `log_format` puts one question to the sink, at its level. On a no, the
/// question is all that the history gains; on a yes, one line follows it.
pub proof fn format_emits_iff_enabled<T, F: FnOnce(&Option<T>) -> String>(
    value: Option<T>,
    f: F,
    level: Severity,
    before: Seq<Event>,
    after: Seq<Event>,
)
    requires
        asked_formatted(value, f, level, before, after),
    ensures
        before.push(asked(level, answer_after(before, after))).is_prefix_of(after),
        !answer_after(before, after) ==> after == before.push(
            asked(level, answer_after(before, after)),
        ),
        emissions(after) == emissions(before) + if answer_after(before, after) {
            1nat
        } else {
            0nat
        },
{
    let answer = choose|answer: bool|
        formatted(
            value,
            f,
            answer,
            level,
            before.push(#[trigger] asked(level, answer)),
            after,
        );
    let asking = before.push(asked(level, answer));
    emissions_push(before, asked(level, answer));
    format_when_emits_iff_enabled(value, f, answer, level, asking, after);
    if after != asking {
        assert(after.drop_last() =~= asking);
    }
}

/// `log_some_format` puts one question to the sink, at its level. On a yes
/// for `Some`, one line follows the question; on any other input the question
/// is all that the history gains.
pub proof fn some_format_emits_iff_enabled_and_some<T, F: FnOnce(&T) -> String>(
    value: Option<T>,
    f: F,
    level: Severity,
    before: Seq<Event>,
    after: Seq<Event>,
)
    requires
        asked_some_formatted(value, f, level, before, after),
    ensures
        before.push(asked(level, answer_after(before, after))).is_prefix_of(after),
        !(answer_after(before, after) && value is Some) ==> after == before.push(
            asked(level, answer_after(before, after)),
        ),
        emissions(after) == emissions(before) + if answer_after(before, after) && value is Some {
            1nat
        } else {
            0nat
        },
{
    let answer = choose|answer: bool|
        some_formatted(
            value,
            f,
            answer,
            level,
            before.push(#[trigger] asked(level, answer)),
            after,
        );
    let asking = before.push(asked(level, answer));
    emissions_push(before, asked(level, answer));
    some_format_when_emits_iff_enabled_and_some(value, f, answer, level, asking, after);
    if after != asking {
        assert(after.drop_last() =~= asking);
    }
}

/// `log_none_format` puts one question to the sink, at its level. On a yes
/// for `None`, one line follows the question; on any other input the question
/// is all that the history gains.
pub proof fn none_format_emits_iff_enabled_and_none<T, F: FnOnce() -> String>(
    value: Option<T>,
    f: F,
    level: Severity,
    before: Seq<Event>,
    after: Seq<Event>,
)
    requires
        asked_none_formatted(value, f, level, before, after),
    ensures
        before.push(asked(level, answer_after(before, after))).is_prefix_of(after),
        !(answer_after(before, after) && value is None) ==> after == before.push(
            asked(level, answer_after(before, after)),
        ),
        emissions(after) == emissions(before) + if answer_after(before, after) && value is None {
            1nat
        } else {
            0nat
        },
{
    let answer = choose|answer: bool|
        none_formatted(
            value,
            f,
            answer,
            level,
            before.push(#[trigger] asked(level, answer)),
            after,
        );
    let asking = before.push(asked(level, answer));
    emissions_push(before, asked(level, answer));
    none_format_when_emits_iff_enabled_and_none(value, f, answer, level, asking, after);
    if after != asking {
        assert(after.drop_last() =~= asking);
    }
}

} // verus!
