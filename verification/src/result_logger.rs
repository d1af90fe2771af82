//! Log methods for [`Result`]: one line for `Ok`, for `Err`, or for either,
//! and the result comes back as it went in.

use crate::severity::Severity;
use crate::sink::{answer_after, emissions, emissions_push, Event, Sink};
use crate::text::{label, labelled, render, renders};
use vstd::prelude::*;

verus! {

/// The target under which the lines of this module go out.
pub const TARGET: &'static str = "logchop::result_logger";

/// The question whether lines of this module are enabled at `level`, with its
/// answer.
pub open spec fn asked(level: Severity, answer: bool) -> Event {
    Event::Asked { target: TARGET@, level, answer }
}

/// A line of this module.
pub open spec fn emitted(level: Severity, text: Seq<char>) -> Event {
    Event::Emitted { target: TARGET@, level, text }
}

/// What [`ResultLogger::log_ok`] does to a sink's history. For `Ok`: one line
/// more, whose text is the message, `": "` and a rendering of the wrapped
/// value. For `Err`: nothing.
pub open spec fn ok_logged<T: core::fmt::Debug, E>(
    value: Result<T, E>,
    level: Severity,
    message: Seq<char>,
    before: Seq<Event>,
    after: Seq<Event>,
) -> bool {
    match value {
        Ok(inner) => exists|rendered: Seq<char>| #[trigger]
            renders(inner, rendered) && after == before.push(
                emitted(level, labelled(message, rendered)),
            ),
        Err(_) => after == before,
    }
}

/// What [`ResultLogger::log_err`] does to a sink's history. For `Err`: one
/// line more, whose text is the message, `": "` and a rendering of the wrapped
/// error. For `Ok`: nothing.
pub open spec fn err_logged<T, E: core::fmt::Debug>(
    value: Result<T, E>,
    level: Severity,
    message: Seq<char>,
    before: Seq<Event>,
    after: Seq<Event>,
) -> bool {
    match value {
        Ok(_) => after == before,
        Err(error) => exists|rendered: Seq<char>| #[trigger]
            renders(error, rendered) && after == before.push(
                emitted(level, labelled(message, rendered)),
            ),
    }
}

/// What [`ResultLogger::log`] does to a sink's history: for `Ok` what `log_ok`
/// does, for `Err` what `log_err` does.
pub open spec fn logged<T: core::fmt::Debug, E: core::fmt::Debug>(
    value: Result<T, E>,
    level: Severity,
    message: Seq<char>,
    before: Seq<Event>,
    after: Seq<Event>,
) -> bool {
    match value {
        Ok(_) => ok_logged(value, level, message, before, after),
        Err(_) => err_logged(value, level, message, before, after),
    }
}

/// Log methods for [`Result`] that show the wrapped value or error through
/// `Debug`.
///
/// None of them asks whether the level is enabled: the payload is rendered and
/// the line emitted whenever the result is on the method's side.
pub trait ResultLogger<T: core::fmt::Debug, E: core::fmt::Debug>: Sized {
    /// The result that `self` is.
    spec fn held(self) -> Result<T, E>;

    /// Emits a line for `Ok` and for `Err`, with the wrapped value or error
    /// shown.
    fn log(self, sink: &mut Sink, level: Severity, message: &str) -> (out: Result<T, E>)
        ensures
            out == self.held(),
            logged(self.held(), level, message@, old(sink).history(), final(sink).history()),
    ;

    /// Emits a line if `Ok`, with the wrapped value shown.
    fn log_ok(self, sink: &mut Sink, level: Severity, message: &str) -> (out: Result<T, E>)
        ensures
            out == self.held(),
            ok_logged(self.held(), level, message@, old(sink).history(), final(sink).history()),
    ;

    /// Emits a line if `Err`, with the wrapped error shown.
    fn log_err(self, sink: &mut Sink, level: Severity, message: &str) -> (out: Result<T, E>)
        ensures
            out == self.held(),
            err_logged(self.held(), level, message@, old(sink).history(), final(sink).history()),
    ;

    /// [`log`](ResultLogger::log) at [`Severity::Trace`].
    fn trace(self, sink: &mut Sink, message: &str) -> (out: Result<T, E>)
        ensures
            out == self.held(),
            logged(
                self.held(),
                Severity::Trace,
                message@,
                old(sink).history(),
                final(sink).history(),
            ),
    {
        self.log(sink, Severity::Trace, message)
    }

    /// [`log_ok`](ResultLogger::log_ok) at [`Severity::Trace`].
    fn trace_ok(self, sink: &mut Sink, message: &str) -> (out: Result<T, E>)
        ensures
            out == self.held(),
            ok_logged(
                self.held(),
                Severity::Trace,
                message@,
                old(sink).history(),
                final(sink).history(),
            ),
    {
        self.log_ok(sink, Severity::Trace, message)
    }

    /// [`log_err`](ResultLogger::log_err) at [`Severity::Trace`].
    fn trace_err(self, sink: &mut Sink, message: &str) -> (out: Result<T, E>)
        ensures
            out == self.held(),
            err_logged(
                self.held(),
                Severity::Trace,
                message@,
                old(sink).history(),
                final(sink).history(),
            ),
    {
        self.log_err(sink, Severity::Trace, message)
    }

    /// [`log`](ResultLogger::log) at [`Severity::Debug`].
    fn debug(self, sink: &mut Sink, message: &str) -> (out: Result<T, E>)
        ensures
            out == self.held(),
            logged(
                self.held(),
                Severity::Debug,
                message@,
                old(sink).history(),
                final(sink).history(),
            ),
    {
        self.log(sink, Severity::Debug, message)
    }

    /// [`log_ok`](ResultLogger::log_ok) at [`Severity::Debug`].
    fn debug_ok(self, sink: &mut Sink, message: &str) -> (out: Result<T, E>)
        ensures
            out == self.held(),
            ok_logged(
                self.held(),
                Severity::Debug,
                message@,
                old(sink).history(),
                final(sink).history(),
            ),
    {
        self.log_ok(sink, Severity::Debug, message)
    }

    /// [`log_err`](ResultLogger::log_err) at [`Severity::Debug`].
    fn debug_err(self, sink: &mut Sink, message: &str) -> (out: Result<T, E>)
        ensures
            out == self.held(),
            err_logged(
                self.held(),
                Severity::Debug,
                message@,
                old(sink).history(),
                final(sink).history(),
            ),
    {
        self.log_err(sink, Severity::Debug, message)
    }

    /// [`log`](ResultLogger::log) at [`Severity::Info`].
    fn info(self, sink: &mut Sink, message: &str) -> (out: Result<T, E>)
        ensures
            out == self.held(),
            logged(
                self.held(),
                Severity::Info,
                message@,
                old(sink).history(),
                final(sink).history(),
            ),
    {
        self.log(sink, Severity::Info, message)
    }

    /// [`log_ok`](ResultLogger::log_ok) at [`Severity::Info`].
    fn info_ok(self, sink: &mut Sink, message: &str) -> (out: Result<T, E>)
        ensures
            out == self.held(),
            ok_logged(
                self.held(),
                Severity::Info,
                message@,
                old(sink).history(),
                final(sink).history(),
            ),
    {
        self.log_ok(sink, Severity::Info, message)
    }

    /// [`log_err`](ResultLogger::log_err) at [`Severity::Info`].
    fn info_err(self, sink: &mut Sink, message: &str) -> (out: Result<T, E>)
        ensures
            out == self.held(),
            err_logged(
                self.held(),
                Severity::Info,
                message@,
                old(sink).history(),
                final(sink).history(),
            ),
    {
        self.log_err(sink, Severity::Info, message)
    }

    /// [`log`](ResultLogger::log) at [`Severity::Warn`].
    fn warn(self, sink: &mut Sink, message: &str) -> (out: Result<T, E>)
        ensures
            out == self.held(),
            logged(
                self.held(),
                Severity::Warn,
                message@,
                old(sink).history(),
                final(sink).history(),
            ),
    {
        self.log(sink, Severity::Warn, message)
    }

    /// [`log_ok`](ResultLogger::log_ok) at [`Severity::Warn`].
    fn warn_ok(self, sink: &mut Sink, message: &str) -> (out: Result<T, E>)
        ensures
            out == self.held(),
            ok_logged(
                self.held(),
                Severity::Warn,
                message@,
                old(sink).history(),
                final(sink).history(),
            ),
    {
        self.log_ok(sink, Severity::Warn, message)
    }

    /// [`log_err`](ResultLogger::log_err) at [`Severity::Warn`].
    fn warn_err(self, sink: &mut Sink, message: &str) -> (out: Result<T, E>)
        ensures
            out == self.held(),
            err_logged(
                self.held(),
                Severity::Warn,
                message@,
                old(sink).history(),
                final(sink).history(),
            ),
    {
        self.log_err(sink, Severity::Warn, message)
    }

    /// [`log`](ResultLogger::log) at [`Severity::Error`].
    fn error(self, sink: &mut Sink, message: &str) -> (out: Result<T, E>)
        ensures
            out == self.held(),
            logged(
                self.held(),
                Severity::Error,
                message@,
                old(sink).history(),
                final(sink).history(),
            ),
    {
        self.log(sink, Severity::Error, message)
    }

    /// [`log_ok`](ResultLogger::log_ok) at [`Severity::Error`].
    fn error_ok(self, sink: &mut Sink, message: &str) -> (out: Result<T, E>)
        ensures
            out == self.held(),
            ok_logged(
                self.held(),
                Severity::Error,
                message@,
                old(sink).history(),
                final(sink).history(),
            ),
    {
        self.log_ok(sink, Severity::Error, message)
    }

    /// [`log_err`](ResultLogger::log_err) at [`Severity::Error`].
    fn error_err(self, sink: &mut Sink, message: &str) -> (out: Result<T, E>)
        ensures
            out == self.held(),
            err_logged(
                self.held(),
                Severity::Error,
                message@,
                old(sink).history(),
                final(sink).history(),
            ),
    {
        self.log_err(sink, Severity::Error, message)
    }
}

impl<T: core::fmt::Debug, E: core::fmt::Debug> ResultLogger<T, E> for Result<T, E> {
    open spec fn held(self) -> Result<T, E> {
        self
    }

    fn log(self, sink: &mut Sink, level: Severity, message: &str) -> (out: Result<T, E>) {
        if self.is_ok() {
            self.log_ok(sink, level, message)
        } else {
            self.log_err(sink, level, message)
        }
    }

    fn log_ok(self, sink: &mut Sink, level: Severity, message: &str) -> (out: Result<T, E>) {
        match &self {
            Ok(inner) => {
                let rendered = render(inner);
                let text = label(message, rendered.as_str());
                sink.emit(TARGET, level, text.as_str());
            },
            Err(_) => {},
        }
        self
    }

    fn log_err(self, sink: &mut Sink, level: Severity, message: &str) -> (out: Result<T, E>) {
        match &self {
            Ok(_) => {},
            Err(error) => {
                let rendered = render(error);
                let text = label(message, rendered.as_str());
                sink.emit(TARGET, level, text.as_str());
            },
        }
        self
    }
}

/// Whether the formatter of [`ResultLogFormatter::log_format`] can be called
/// on this result.
pub open spec fn formattable<T, E, F: FnOnce(&Result<T, E>) -> String>(
    value: Result<T, E>,
    f: F,
) -> bool {
    f.requires((&value,))
}

/// Whether the formatter of [`ResultLogFormatter::log_ok_format`] can be
/// called on what this result wraps, if it is `Ok`.
pub open spec fn ok_formattable<T, E, F: FnOnce(&T) -> String>(value: Result<T, E>, f: F) -> bool {
    match value {
        Ok(inner) => f.requires((&inner,)),
        Err(_) => true,
    }
}

/// Whether the formatter of [`ResultLogFormatter::log_err_format`] can be
/// called on what this result wraps, if it is `Err`.
pub open spec fn err_formattable<T, E, F: FnOnce(&E) -> String>(
    value: Result<T, E>,
    f: F,
) -> bool {
    match value {
        Ok(_) => true,
        Err(error) => f.requires((&error,)),
    }
}

/// What [`ResultLogFormatter::log_format_when`] does to a sink's history. If
/// `enabled`: one line more, whose text the formatter made of the result. If
/// not: nothing.
pub open spec fn formatted<T, E, F: FnOnce(&Result<T, E>) -> String>(
    value: Result<T, E>,
    f: F,
    enabled: bool,
    level: Severity,
    before: Seq<Event>,
    after: Seq<Event>,
) -> bool {
    if enabled {
        exists|text: String| #[trigger]
            f.ensures((&value,), text) && after == before.push(emitted(level, text@))
    } else {
        after == before
    }
}

/// What [`ResultLogFormatter::log_ok_format_when`] does to a sink's history.
/// If `enabled` and `Ok`: one line more, whose text the formatter made of the
/// wrapped value. If not: nothing.
pub open spec fn ok_formatted<T, E, F: FnOnce(&T) -> String>(
    value: Result<T, E>,
    f: F,
    enabled: bool,
    level: Severity,
    before: Seq<Event>,
    after: Seq<Event>,
) -> bool {
    match value {
        Ok(inner) if enabled => exists|text: String| #[trigger]
            f.ensures((&inner,), text) && after == before.push(emitted(level, text@)),
        _ => after == before,
    }
}

/// What [`ResultLogFormatter::log_err_format_when`] does to a sink's history.
/// If `enabled` and `Err`: one line more, whose text the formatter made of the
/// wrapped error. If not: nothing.
pub open spec fn err_formatted<T, E, F: FnOnce(&E) -> String>(
    value: Result<T, E>,
    f: F,
    enabled: bool,
    level: Severity,
    before: Seq<Event>,
    after: Seq<Event>,
) -> bool {
    match value {
        Err(error) if enabled => exists|text: String| #[trigger]
            f.ensures((&error,), text) && after == before.push(emitted(level, text@)),
        _ => after == before,
    }
}

/// What [`ResultLogFormatter::log_format`] does to a sink's history: the
/// question whether `level` is enabled, with the sink's answer, and then what
/// `log_format_when` does on that answer.
pub open spec fn asked_formatted<T, E, F: FnOnce(&Result<T, E>) -> String>(
    value: Result<T, E>,
    f: F,
    level: Severity,
    before: Seq<Event>,
    after: Seq<Event>,
) -> bool {
    exists|answer: bool|
        formatted(value, f, answer, level, before.push(#[trigger] asked(level, answer)), after)
}

/// What [`ResultLogFormatter::log_ok_format`] does to a sink's history: the
/// question whether `level` is enabled, with the sink's answer, and then what
/// `log_ok_format_when` does on that answer.
pub open spec fn asked_ok_formatted<T, E, F: FnOnce(&T) -> String>(
    value: Result<T, E>,
    f: F,
    level: Severity,
    before: Seq<Event>,
    after: Seq<Event>,
) -> bool {
    exists|answer: bool|
        ok_formatted(value, f, answer, level, before.push(#[trigger] asked(level, answer)), after)
}

/// What [`ResultLogFormatter::log_err_format`] does to a sink's history: the
/// question whether `level` is enabled, with the sink's answer, and then what
/// `log_err_format_when` does on that answer.
pub open spec fn asked_err_formatted<T, E, F: FnOnce(&E) -> String>(
    value: Result<T, E>,
    f: F,
    level: Severity,
    before: Seq<Event>,
    after: Seq<Event>,
) -> bool {
    exists|answer: bool|
        err_formatted(
            value,
            f,
            answer,
            level,
            before.push(#[trigger] asked(level, answer)),
            after,
        )
}

/// Log methods for [`Result`] whose text a formatter of the caller makes.
///
/// The formatter runs only where its line is wanted. The `_when` methods take
/// the answer to "is this level enabled?" as an argument, and ask of the
/// formatter only that it can be called where the answer is yes and the result
/// is on the method's side: on every other input they do not call it. The
/// other methods put the question to the sink themselves and go on as the
/// `_when` method does; as nobody knows the answer beforehand, they ask that
/// the formatter can be called whenever the result is on their side.
pub trait ResultLogFormatter<T, E>: Sized {
    /// The result that `self` is.
    spec fn held(self) -> Result<T, E>;

    /// Emits what the formatter makes of the result, if `enabled`.
    fn log_format_when<F>(
        self,
        sink: &mut Sink,
        enabled: bool,
        level: Severity,
        f: F,
    ) -> (out: Result<T, E>) where F: FnOnce(&Result<T, E>) -> String
        requires
            enabled ==> formattable(self.held(), f),
        ensures
            out == self.held(),
            formatted(
                self.held(),
                f,
                enabled,
                level,
                old(sink).history(),
                final(sink).history(),
            ),
    ;

    /// Emits what the formatter makes of the wrapped value, if `enabled` and
    /// `Ok`.
    fn log_ok_format_when<F>(
        self,
        sink: &mut Sink,
        enabled: bool,
        level: Severity,
        f: F,
    ) -> (out: Result<T, E>) where F: FnOnce(&T) -> String
        requires
            enabled ==> ok_formattable(self.held(), f),
        ensures
            out == self.held(),
            ok_formatted(
                self.held(),
                f,
                enabled,
                level,
                old(sink).history(),
                final(sink).history(),
            ),
    ;

    /// Emits what the formatter makes of the wrapped error, if `enabled` and
    /// `Err`.
    fn log_err_format_when<F>(
        self,
        sink: &mut Sink,
        enabled: bool,
        level: Severity,
        f: F,
    ) -> (out: Result<T, E>) where F: FnOnce(&E) -> String
        requires
            enabled ==> err_formattable(self.held(), f),
        ensures
            out == self.held(),
            err_formatted(
                self.held(),
                f,
                enabled,
                level,
                old(sink).history(),
                final(sink).history(),
            ),
    ;

    /// Emits what the formatter makes of the result, if the sink says that
    /// `level` is enabled.
    fn log_format<F>(self, sink: &mut Sink, level: Severity, f: F) -> (out: Result<T, E>) where
        F: FnOnce(&Result<T, E>) -> String,

        requires
            formattable(self.held(), f),
        ensures
            out == self.held(),
            asked_formatted(self.held(), f, level, old(sink).history(), final(sink).history()),
    ;

    /// Emits what the formatter makes of the wrapped value, if `Ok` and the
    /// sink says that `level` is enabled.
    fn log_ok_format<F>(self, sink: &mut Sink, level: Severity, f: F) -> (out: Result<T, E>) where
        F: FnOnce(&T) -> String,

        requires
            ok_formattable(self.held(), f),
        ensures
            out == self.held(),
            asked_ok_formatted(self.held(), f, level, old(sink).history(), final(sink).history()),
    ;

    /// Emits what the formatter makes of the wrapped error, if `Err` and the
    /// sink says that `level` is enabled.
    fn log_err_format<F>(
        self,
        sink: &mut Sink,
        level: Severity,
        f: F,
    ) -> (out: Result<T, E>) where F: FnOnce(&E) -> String
        requires
            err_formattable(self.held(), f),
        ensures
            out == self.held(),
            asked_err_formatted(
                self.held(),
                f,
                level,
                old(sink).history(),
                final(sink).history(),
            ),
    ;

    /// [`log_format`](ResultLogFormatter::log_format) at [`Severity::Trace`].
    fn trace_format<F>(self, sink: &mut Sink, f: F) -> (out: Result<T, E>) where
        F: FnOnce(&Result<T, E>) -> String,

        requires
            formattable(self.held(), f),
        ensures
            out == self.held(),
            asked_formatted(
                self.held(),
                f,
                Severity::Trace,
                old(sink).history(),
                final(sink).history(),
            ),
    {
        self.log_format(sink, Severity::Trace, f)
    }

    /// [`log_ok_format`](ResultLogFormatter::log_ok_format) at [`Severity::Trace`].
    fn trace_ok_format<F>(self, sink: &mut Sink, f: F) -> (out: Result<T, E>) where
        F: FnOnce(&T) -> String,

        requires
            ok_formattable(self.held(), f),
        ensures
            out == self.held(),
            asked_ok_formatted(
                self.held(),
                f,
                Severity::Trace,
                old(sink).history(),
                final(sink).history(),
            ),
    {
        self.log_ok_format(sink, Severity::Trace, f)
    }

    /// [`log_err_format`](ResultLogFormatter::log_err_format) at [`Severity::Trace`].
    fn trace_err_format<F>(self, sink: &mut Sink, f: F) -> (out: Result<T, E>) where
        F: FnOnce(&E) -> String,

        requires
            err_formattable(self.held(), f),
        ensures
            out == self.held(),
            asked_err_formatted(
                self.held(),
                f,
                Severity::Trace,
                old(sink).history(),
                final(sink).history(),
            ),
    {
        self.log_err_format(sink, Severity::Trace, f)
    }

    /// [`log_format`](ResultLogFormatter::log_format) at [`Severity::Debug`].
    fn debug_format<F>(self, sink: &mut Sink, f: F) -> (out: Result<T, E>) where
        F: FnOnce(&Result<T, E>) -> String,

        requires
            formattable(self.held(), f),
        ensures
            out == self.held(),
            asked_formatted(
                self.held(),
                f,
                Severity::Debug,
                old(sink).history(),
                final(sink).history(),
            ),
    {
        self.log_format(sink, Severity::Debug, f)
    }

    /// [`log_ok_format`](ResultLogFormatter::log_ok_format) at [`Severity::Debug`].
    fn debug_ok_format<F>(self, sink: &mut Sink, f: F) -> (out: Result<T, E>) where
        F: FnOnce(&T) -> String,

        requires
            ok_formattable(self.held(), f),
        ensures
            out == self.held(),
            asked_ok_formatted(
                self.held(),
                f,
                Severity::Debug,
                old(sink).history(),
                final(sink).history(),
            ),
    {
        self.log_ok_format(sink, Severity::Debug, f)
    }

    /// [`log_err_format`](ResultLogFormatter::log_err_format) at [`Severity::Debug`].
    fn debug_err_format<F>(self, sink: &mut Sink, f: F) -> (out: Result<T, E>) where
        F: FnOnce(&E) -> String,

        requires
            err_formattable(self.held(), f),
        ensures
            out == self.held(),
            asked_err_formatted(
                self.held(),
                f,
                Severity::Debug,
                old(sink).history(),
                final(sink).history(),
            ),
    {
        self.log_err_format(sink, Severity::Debug, f)
    }

    /// [`log_format`](ResultLogFormatter::log_format) at [`Severity::Info`].
    fn info_format<F>(self, sink: &mut Sink, f: F) -> (out: Result<T, E>) where
        F: FnOnce(&Result<T, E>) -> String,

        requires
            formattable(self.held(), f),
        ensures
            out == self.held(),
            asked_formatted(
                self.held(),
                f,
                Severity::Info,
                old(sink).history(),
                final(sink).history(),
            ),
    {
        self.log_format(sink, Severity::Info, f)
    }

    /// [`log_ok_format`](ResultLogFormatter::log_ok_format) at [`Severity::Info`].
    fn info_ok_format<F>(self, sink: &mut Sink, f: F) -> (out: Result<T, E>) where
        F: FnOnce(&T) -> String,

        requires
            ok_formattable(self.held(), f),
        ensures
            out == self.held(),
            asked_ok_formatted(
                self.held(),
                f,
                Severity::Info,
                old(sink).history(),
                final(sink).history(),
            ),
    {
        self.log_ok_format(sink, Severity::Info, f)
    }

    /// [`log_err_format`](ResultLogFormatter::log_err_format) at [`Severity::Info`].
    fn info_err_format<F>(self, sink: &mut Sink, f: F) -> (out: Result<T, E>) where
        F: FnOnce(&E) -> String,

        requires
            err_formattable(self.held(), f),
        ensures
            out == self.held(),
            asked_err_formatted(
                self.held(),
                f,
                Severity::Info,
                old(sink).history(),
                final(sink).history(),
            ),
    {
        self.log_err_format(sink, Severity::Info, f)
    }

    /// [`log_format`](ResultLogFormatter::log_format) at [`Severity::Warn`].
    fn warn_format<F>(self, sink: &mut Sink, f: F) -> (out: Result<T, E>) where
        F: FnOnce(&Result<T, E>) -> String,

        requires
            formattable(self.held(), f),
        ensures
            out == self.held(),
            asked_formatted(
                self.held(),
                f,
                Severity::Warn,
                old(sink).history(),
                final(sink).history(),
            ),
    {
        self.log_format(sink, Severity::Warn, f)
    }

    /// [`log_ok_format`](ResultLogFormatter::log_ok_format) at [`Severity::Warn`].
    fn warn_ok_format<F>(self, sink: &mut Sink, f: F) -> (out: Result<T, E>) where
        F: FnOnce(&T) -> String,

        requires
            ok_formattable(self.held(), f),
        ensures
            out == self.held(),
            asked_ok_formatted(
                self.held(),
                f,
                Severity::Warn,
                old(sink).history(),
                final(sink).history(),
            ),
    {
        self.log_ok_format(sink, Severity::Warn, f)
    }

    /// [`log_err_format`](ResultLogFormatter::log_err_format) at [`Severity::Warn`].
    fn warn_err_format<F>(self, sink: &mut Sink, f: F) -> (out: Result<T, E>) where
        F: FnOnce(&E) -> String,

        requires
            err_formattable(self.held(), f),
        ensures
            out == self.held(),
            asked_err_formatted(
                self.held(),
                f,
                Severity::Warn,
                old(sink).history(),
                final(sink).history(),
            ),
    {
        self.log_err_format(sink, Severity::Warn, f)
    }

    /// [`log_format`](ResultLogFormatter::log_format) at [`Severity::Error`].
    fn error_format<F>(self, sink: &mut Sink, f: F) -> (out: Result<T, E>) where
        F: FnOnce(&Result<T, E>) -> String,

        requires
            formattable(self.held(), f),
        ensures
            out == self.held(),
            asked_formatted(
                self.held(),
                f,
                Severity::Error,
                old(sink).history(),
                final(sink).history(),
            ),
    {
        self.log_format(sink, Severity::Error, f)
    }

    /// [`log_ok_format`](ResultLogFormatter::log_ok_format) at [`Severity::Error`].
    fn error_ok_format<F>(self, sink: &mut Sink, f: F) -> (out: Result<T, E>) where
        F: FnOnce(&T) -> String,

        requires
            ok_formattable(self.held(), f),
        ensures
            out == self.held(),
            asked_ok_formatted(
                self.held(),
                f,
                Severity::Error,
                old(sink).history(),
                final(sink).history(),
            ),
    {
        self.log_ok_format(sink, Severity::Error, f)
    }

    /// [`log_err_format`](ResultLogFormatter::log_err_format) at [`Severity::Error`].
    fn error_err_format<F>(self, sink: &mut Sink, f: F) -> (out: Result<T, E>) where
        F: FnOnce(&E) -> String,

        requires
            err_formattable(self.held(), f),
        ensures
            out == self.held(),
            asked_err_formatted(
                self.held(),
                f,
                Severity::Error,
                old(sink).history(),
                final(sink).history(),
            ),
    {
        self.log_err_format(sink, Severity::Error, f)
    }
}

impl<T, E> ResultLogFormatter<T, E> for Result<T, E> {
    open spec fn held(self) -> Result<T, E> {
        self
    }

    fn log_format_when<F>(
        self,
        sink: &mut Sink,
        enabled: bool,
        level: Severity,
        f: F,
    ) -> (out: Result<T, E>) where F: FnOnce(&Result<T, E>) -> String {
        if enabled {
            let text = f(&self);
            sink.emit(TARGET, level, text.as_str());
        }
        self
    }

    fn log_ok_format_when<F>(
        self,
        sink: &mut Sink,
        enabled: bool,
        level: Severity,
        f: F,
    ) -> (out: Result<T, E>) where F: FnOnce(&T) -> String {
        if enabled {
            match &self {
                Ok(inner) => {
                    let text = f(inner);
                    sink.emit(TARGET, level, text.as_str());
                },
                Err(_) => {},
            }
        }
        self
    }

    fn log_err_format_when<F>(
        self,
        sink: &mut Sink,
        enabled: bool,
        level: Severity,
        f: F,
    ) -> (out: Result<T, E>) where F: FnOnce(&E) -> String {
        if enabled {
            match &self {
                Ok(_) => {},
                Err(error) => {
                    let text = f(error);
                    sink.emit(TARGET, level, text.as_str());
                },
            }
        }
        self
    }

    fn log_format<F>(self, sink: &mut Sink, level: Severity, f: F) -> (out: Result<T, E>) where
        F: FnOnce(&Result<T, E>) -> String,
    {
        let enabled = sink.enabled(TARGET, level);
        assert(sink.history() == old(sink).history().push(asked(level, enabled)));
        self.log_format_when(sink, enabled, level, f)
    }

    fn log_ok_format<F>(self, sink: &mut Sink, level: Severity, f: F) -> (out: Result<T, E>) where
        F: FnOnce(&T) -> String,
    {
        let enabled = sink.enabled(TARGET, level);
        assert(sink.history() == old(sink).history().push(asked(level, enabled)));
        self.log_ok_format_when(sink, enabled, level, f)
    }

    fn log_err_format<F>(
        self,
        sink: &mut Sink,
        level: Severity,
        f: F,
    ) -> (out: Result<T, E>) where F: FnOnce(&E) -> String {
        let enabled = sink.enabled(TARGET, level);
        assert(sink.history() == old(sink).history().push(asked(level, enabled)));
        self.log_err_format_when(sink, enabled, level, f)
    }
}

/// `log` emits exactly one line, whatever the result is.
pub proof fn log_emits_once<T: core::fmt::Debug, E: core::fmt::Debug>(
    value: Result<T, E>,
    level: Severity,
    message: Seq<char>,
    before: Seq<Event>,
    after: Seq<Event>,
)
    requires
        logged(value, level, message, before, after),
    ensures
        emissions(after) == emissions(before) + 1,
{
    match value {
        Ok(_) => log_ok_emits_iff_ok(value, level, message, before, after),
        Err(_) => log_err_emits_iff_err(value, level, message, before, after),
    }
}

/// `log_ok` emits exactly one line if the result is `Ok`, and none if it is
/// `Err`.
pub proof fn log_ok_emits_iff_ok<T: core::fmt::Debug, E>(
    value: Result<T, E>,
    level: Severity,
    message: Seq<char>,
    before: Seq<Event>,
    after: Seq<Event>,
)
    requires
        ok_logged(value, level, message, before, after),
    ensures
        emissions(after) == emissions(before) + if value is Ok {
            1nat
        } else {
            0nat
        },
{
    if let Ok(inner) = value {
        let rendered = choose|rendered: Seq<char>| #[trigger]
            renders(inner, rendered) && after == before.push(
                emitted(level, labelled(message, rendered)),
            );
        emissions_push(before, emitted(level, labelled(message, rendered)));
    }
}

/// `log_err` emits exactly one line if the result is `Err`, and none if it is
/// `Ok`.
pub proof fn log_err_emits_iff_err<T, E: core::fmt::Debug>(
    value: Result<T, E>,
    level: Severity,
    message: Seq<char>,
    before: Seq<Event>,
    after: Seq<Event>,
)
    requires
        err_logged(value, level, message, before, after),
    ensures
        emissions(after) == emissions(before) + if value is Err {
            1nat
        } else {
            0nat
        },
{
    if let Err(error) = value {
        let rendered = choose|rendered: Seq<char>| #[trigger]
            renders(error, rendered) && after == before.push(
                emitted(level, labelled(message, rendered)),
            );
        emissions_push(before, emitted(level, labelled(message, rendered)));
    }
}

/// `log_format_when` emits exactly one line if `enabled`; if not, it leaves the
/// history as it was.
pub proof fn format_when_emits_iff_enabled<T, E, F: FnOnce(&Result<T, E>) -> String>(
    value: Result<T, E>,
    f: F,
    enabled: bool,
    level: Severity,
    before: Seq<Event>,
    after: Seq<Event>,
)
    requires
        formatted(value, f, enabled, level, before, after),
    ensures
        !enabled ==> after == before,
        emissions(after) == emissions(before) + if enabled {
            1nat
        } else {
            0nat
        },
{
    if enabled {
        let text = choose|text: String| #[trigger]
            f.ensures((&value,), text) && after == before.push(emitted(level, text@));
        emissions_push(before, emitted(level, text@));
    }
}

/// `log_ok_format_when` emits exactly one line if `enabled` and the
/// result is `Ok`; if not, it leaves the history as it was.
pub proof fn ok_format_when_emits_iff_enabled_and_ok<T, E, F: FnOnce(&T) -> String>(
    value: Result<T, E>,
    f: F,
    enabled: bool,
    level: Severity,
    before: Seq<Event>,
    after: Seq<Event>,
)
    requires
        ok_formatted(value, f, enabled, level, before, after),
    ensures
        !(enabled && value is Ok) ==> after == before,
        emissions(after) == emissions(before) + if enabled && value is Ok {
            1nat
        } else {
            0nat
        },
{
    if let Ok(inner) = value {
        if enabled {
            let text = choose|text: String| #[trigger]
                f.ensures((&inner,), text) && after == before.push(emitted(level, text@));
            emissions_push(before, emitted(level, text@));
        }
    }
}

/// `log_err_format_when` emits exactly one line if `enabled` and the
/// result is `Err`; if not, it leaves the history as it was.
pub proof fn err_format_when_emits_iff_enabled_and_err<T, E, F: FnOnce(&E) -> String>(
    value: Result<T, E>,
    f: F,
    enabled: bool,
    level: Severity,
    before: Seq<Event>,
    after: Seq<Event>,
)
    requires
        err_formatted(value, f, enabled, level, before, after),
    ensures
        !(enabled && value is Err) ==> after == before,
        emissions(after) == emissions(before) + if enabled && value is Err {
            1nat
        } else {
            0nat
        },
{
    if let Err(error) = value {
        if enabled {
            let text = choose|text: String| #[trigger]
                f.ensures((&error,), text) && after == before.push(emitted(level, text@));
            emissions_push(before, emitted(level, text@));
        }
    }
}

/// `log_format` puts one question to the sink, at its level. On a no, the
/// question is all that the history gains; on a yes, one line follows it.
pub proof fn format_emits_iff_enabled<T, E, F: FnOnce(&Result<T, E>) -> String>(
    value: Result<T, E>,
    f: F,
    level: Severity,
    before: Seq<Event>,
    after: Seq<Event>,
)
    requires
        asked_formatted(value, f, level, before, after),
    ensures
        before.push(asked(level, answer_after(before, after))).is_prefix_of(after),
        !answer_after(before, after) ==> after == before.push(
            asked(level, answer_after(before, after)),
        ),
        emissions(after) == emissions(before) + if answer_after(before, after) {
            1nat
        } else {
            0nat
        },
{
    let answer = choose|answer: bool|
        formatted(
            value,
            f,
            answer,
            level,
            before.push(#[trigger] asked(level, answer)),
            after,
        );
    let asking = before.push(asked(level, answer));
    emissions_push(before, asked(level, answer));
    format_when_emits_iff_enabled(value, f, answer, level, asking, after);
    if after != asking {
        assert(after.drop_last() =~= asking);
    }
}

/// `log_ok_format` puts one question to the sink, at its level. On a yes
/// for `Ok`, one line follows the question; on any other input the question
/// is all that the history gains.
pub proof fn ok_format_emits_iff_enabled_and_ok<T, E, F: FnOnce(&T) -> String>(
    value: Result<T, E>,
    f: F,
    level: Severity,
    before: Seq<Event>,
    after: Seq<Event>,
)
    requires
        asked_ok_formatted(value, f, level, before, after),
    ensures
        before.push(asked(level, answer_after(before, after))).is_prefix_of(after),
        !(answer_after(before, after) && value is Ok) ==> after == before.push(
            asked(level, answer_after(before, after)),
        ),
        emissions(after) == emissions(before) + if answer_after(before, after) && value is Ok {
            1nat
        } else {
            0nat
        },
{
    let answer = choose|answer: bool|
        ok_formatted(
            value,
            f,
            answer,
            level,
            before.push(#[trigger] asked(level, answer)),
            after,
        );
    let asking = before.push(asked(level, answer));
    emissions_push(before, asked(level, answer));
    ok_format_when_emits_iff_enabled_and_ok(value, f, answer, level, asking, after);
    if after != asking {
        assert(after.drop_last() =~= asking);
    }
}

/// `log_err_format` puts one question to the sink, at its level. On a yes
/// for `Err`, one line follows the question; on any other input the question
/// is all that the history gains.
pub proof fn err_format_emits_iff_enabled_and_err<T, E, F: FnOnce(&E) -> String>(
    value: Result<T, E>,
    f: F,
    level: Severity,
    before: Seq<Event>,
    after: Seq<Event>,
)
    requires
        asked_err_formatted(value, f, level, before, after),
    ensures
        before.push(asked(level, answer_after(before, after))).is_prefix_of(after),
        !(answer_after(before, after) && value is Err) ==> after == before.push(
            asked(level, answer_after(before, after)),
        ),
        emissions(after) == emissions(before) + if answer_after(before, after) && value is Err {
            1nat
        } else {
            0nat
        },
{
    let answer = choose|answer: bool|
        err_formatted(
            value,
            f,
            answer,
            level,
            before.push(#[trigger] asked(level, answer)),
            after,
        );
    let asking = before.push(asked(level, answer));
    emissions_push(before, asked(level, answer));
    err_format_when_emits_iff_enabled_and_err(value, f, answer, level, asking, after);
    if after != asking {
        assert(after.drop_last() =~= asking);
    }
}

} // verus!
