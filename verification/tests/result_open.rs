use logchop::result_logger::TARGET;
use logchop::{ResultLogFormatter, ResultLogger, Severity, Sink};
use std::cell::Cell;
use std::sync::Mutex;

struct Capture {
    seen: Mutex<Vec<(log::Level, String, String)>>,
}

static CAPTURE: Capture = Capture { seen: Mutex::new(Vec::new()) };

impl log::Log for Capture {
    fn enabled(&self, _metadata: &log::Metadata) -> bool {
        true
    }

    fn log(&self, record: &log::Record) {
        self.seen.lock().unwrap().push((
            record.level(),
            record.target().to_string(),
            format!("{}", record.args()),
        ));
    }

    fn flush(&self) {}
}

fn listen() {
    let _ = log::set_logger(&CAPTURE);
    log::set_max_level(log::LevelFilter::Trace);
}

/// The records whose text holds `mark`, oldest first.
fn heard(mark: &str) -> Vec<(log::Level, String, String)> {
    let seen = CAPTURE.seen.lock().unwrap();
    seen.iter().filter(|r| r.2.contains(mark)).cloned().collect()
}

fn result_line(level: log::Level, text: &str) -> (log::Level, String, String) {
    (level, "logchop::result_logger".to_string(), text.to_string())
}

type Outcome = Result<i32, String>;

fn ok(value: i32) -> Outcome {
    Ok(value)
}

fn err(text: &str) -> Outcome {
    Err(text.to_string())
}

#[test]
fn target_is_the_module_of_the_result_methods() {
    assert_eq!(TARGET, "logchop::result_logger");
}

#[test]
fn log_ok_on_ok_emits_the_value() {
    listen();
    let mut sink = Sink::new();
    let out = ok(42).log_ok(&mut sink, Severity::Info, "good.a");
    assert_eq!(out, ok(42));
    assert_eq!(heard("good.a"), vec![result_line(log::Level::Info, "good.a: 42")]);
}

#[test]
fn log_err_on_err_emits_the_error() {
    listen();
    let mut sink = Sink::new();
    let out = err("boom").log_err(&mut sink, Severity::Error, "bad.a");
    assert_eq!(out, err("boom"));
    assert_eq!(heard("bad.a"), vec![result_line(log::Level::Error, "bad.a: \"boom\"")]);
}

#[test]
fn log_ok_on_err_emits_nothing() {
    listen();
    let mut sink = Sink::new();
    let out = err("boom").log_ok(&mut sink, Severity::Error, "ok.on.err");
    assert_eq!(out, err("boom"));
    assert_eq!(heard("ok.on.err"), vec![]);
}

#[test]
fn log_err_on_ok_emits_nothing() {
    listen();
    let mut sink = Sink::new();
    let out = ok(1).log_err(&mut sink, Severity::Error, "err.on.ok");
    assert_eq!(out, ok(1));
    assert_eq!(heard("err.on.ok"), vec![]);
}

#[test]
fn result_log_emits_once_on_either_side() {
    listen();
    let mut sink = Sink::new();
    assert_eq!(ok(5).log(&mut sink, Severity::Warn, "either.ok"), ok(5));
    assert_eq!(err("e").log(&mut sink, Severity::Debug, "either.err"), err("e"));
    assert_eq!(heard("either.ok"), vec![result_line(log::Level::Warn, "either.ok: 5")]);
    assert_eq!(heard("either.err"), vec![result_line(log::Level::Debug, "either.err: \"e\"")]);
}

#[test]
fn result_generic_methods_carry_each_severity() {
    listen();
    let mut sink = Sink::new();
    let pairs = [
        (Severity::Trace, log::Level::Trace),
        (Severity::Debug, log::Level::Debug),
        (Severity::Info, log::Level::Info),
        (Severity::Warn, log::Level::Warn),
        (Severity::Error, log::Level::Error),
    ];
    for (severity, level) in pairs {
        err("e").log_err(&mut sink, severity, "each.severity").unwrap_err();
        assert_eq!(
            heard("each.severity").last(),
            Some(&result_line(level, "each.severity: \"e\""))
        );
    }
    assert_eq!(heard("each.severity").len(), 5);
}

#[test]
fn result_passes_through_every_debug_method() {
    listen();
    let mut sink = Sink::new();
    let good: Result<Vec<u8>, String> = Ok(vec![1, 2]);
    let good = good.log(&mut sink, Severity::Info, "pass.d");
    let good = good.log_ok(&mut sink, Severity::Info, "pass.d");
    let good = good.log_err(&mut sink, Severity::Info, "pass.d");
    assert_eq!(good, Ok(vec![1, 2]));
    let bad: Result<Vec<u8>, String> = Err(String::from("kept"));
    let bad = bad.log(&mut sink, Severity::Info, "pass.d");
    let bad = bad.log_ok(&mut sink, Severity::Info, "pass.d");
    let bad = bad.log_err(&mut sink, Severity::Info, "pass.d");
    assert_eq!(bad, Err(String::from("kept")));
    assert_eq!(heard("pass.d").len(), 4);
}

#[test]
fn result_sugar_logs_at_the_level_of_its_name() {
    listen();
    let mut sink = Sink::new();
    assert_eq!(ok(1).trace(&mut sink, "sugar.t"), ok(1));
    assert_eq!(ok(1).trace_ok(&mut sink, "sugar.t"), ok(1));
    assert_eq!(err("e").trace_err(&mut sink, "sugar.t"), err("e"));
    assert_eq!(ok(1).debug(&mut sink, "sugar.d"), ok(1));
    assert_eq!(ok(1).debug_ok(&mut sink, "sugar.d"), ok(1));
    assert_eq!(err("e").debug_err(&mut sink, "sugar.d"), err("e"));
    assert_eq!(ok(1).info(&mut sink, "sugar.i"), ok(1));
    assert_eq!(ok(1).info_ok(&mut sink, "sugar.i"), ok(1));
    assert_eq!(err("e").info_err(&mut sink, "sugar.i"), err("e"));
    assert_eq!(ok(1).warn(&mut sink, "sugar.w"), ok(1));
    assert_eq!(ok(1).warn_ok(&mut sink, "sugar.w"), ok(1));
    assert_eq!(err("e").warn_err(&mut sink, "sugar.w"), err("e"));
    assert_eq!(ok(1).error(&mut sink, "sugar.e"), ok(1));
    assert_eq!(ok(1).error_ok(&mut sink, "sugar.e"), ok(1));
    assert_eq!(err("e").error_err(&mut sink, "sugar.e"), err("e"));
    let marks = [
        ("sugar.t", log::Level::Trace),
        ("sugar.d", log::Level::Debug),
        ("sugar.i", log::Level::Info),
        ("sugar.w", log::Level::Warn),
        ("sugar.e", log::Level::Error),
    ];
    for (mark, level) in marks {
        let good = format!("{}: 1", mark);
        let bad = format!("{}: \"e\"", mark);
        assert_eq!(
            heard(mark),
            vec![result_line(level, &good), result_line(level, &good), result_line(level, &bad)]
        );
    }
}

#[test]
fn result_sugar_on_err_shows_the_error() {
    listen();
    let mut sink = Sink::new();
    err("t").trace(&mut sink, "bare.err").unwrap_err();
    err("d").debug(&mut sink, "bare.err").unwrap_err();
    err("i").info(&mut sink, "bare.err").unwrap_err();
    err("w").warn(&mut sink, "bare.err").unwrap_err();
    err("e").error(&mut sink, "bare.err").unwrap_err();
    assert_eq!(
        heard("bare.err"),
        vec![
            result_line(log::Level::Trace, "bare.err: \"t\""),
            result_line(log::Level::Debug, "bare.err: \"d\""),
            result_line(log::Level::Info, "bare.err: \"i\""),
            result_line(log::Level::Warn, "bare.err: \"w\""),
            result_line(log::Level::Error, "bare.err: \"e\""),
        ]
    );
}

#[test]
fn result_sugar_is_silent_on_the_other_side() {
    listen();
    let mut sink = Sink::new();
    assert_eq!(err("e").trace_ok(&mut sink, "sugar.off"), err("e"));
    assert_eq!(ok(1).trace_err(&mut sink, "sugar.off"), ok(1));
    assert_eq!(err("e").debug_ok(&mut sink, "sugar.off"), err("e"));
    assert_eq!(ok(1).debug_err(&mut sink, "sugar.off"), ok(1));
    assert_eq!(err("e").info_ok(&mut sink, "sugar.off"), err("e"));
    assert_eq!(ok(1).info_err(&mut sink, "sugar.off"), ok(1));
    assert_eq!(err("e").warn_ok(&mut sink, "sugar.off"), err("e"));
    assert_eq!(ok(1).warn_err(&mut sink, "sugar.off"), ok(1));
    assert_eq!(err("e").error_ok(&mut sink, "sugar.off"), err("e"));
    assert_eq!(ok(1).error_err(&mut sink, "sugar.off"), ok(1));
    assert_eq!(heard("sugar.off"), vec![]);
}

#[test]
fn warn_err_does_what_log_err_does_at_warn() {
    listen();
    let mut sink = Sink::new();
    let sugar = err("x").warn_err(&mut sink, "fwd.x");
    let generic = err("x").log_err(&mut sink, Severity::Warn, "fwd.x");
    assert_eq!(sugar, generic);
    assert_eq!(heard("fwd.x"), vec![result_line(log::Level::Warn, "fwd.x: \"x\""); 2]);
    let sugar = ok(1).warn_err(&mut sink, "fwd.y");
    let generic = ok(1).log_err(&mut sink, Severity::Warn, "fwd.y");
    assert_eq!(sugar, generic);
    assert_eq!(heard("fwd.y"), vec![]);
}

#[test]
fn warn_and_warn_ok_do_what_the_generic_methods_do_at_warn() {
    listen();
    let mut sink = Sink::new();
    ok(9).warn(&mut sink, "fwd.bare").unwrap();
    ok(9).log(&mut sink, Severity::Warn, "fwd.bare").unwrap();
    ok(9).warn_ok(&mut sink, "fwd.bare").unwrap();
    ok(9).log_ok(&mut sink, Severity::Warn, "fwd.bare").unwrap();
    assert_eq!(heard("fwd.bare"), vec![result_line(log::Level::Warn, "fwd.bare: 9"); 4]);
}

#[test]
fn log_format_hands_the_whole_result_to_the_formatter() {
    listen();
    let mut sink = Sink::new();
    let out = ok(5).log_format(&mut sink, Severity::Info, |r| format!("whole.a {:?}", r));
    assert_eq!(out, ok(5));
    let out = err("e").log_format(&mut sink, Severity::Error, |r| format!("whole.b {:?}", r));
    assert_eq!(out, err("e"));
    assert_eq!(heard("whole.a"), vec![result_line(log::Level::Info, "whole.a Ok(5)")]);
    assert_eq!(heard("whole.b"), vec![result_line(log::Level::Error, "whole.b Err(\"e\")")]);
}

#[test]
fn log_ok_format_hands_the_value_to_the_formatter() {
    listen();
    let mut sink = Sink::new();
    let calls = Cell::new(0);
    let out = ok(8).log_ok_format(&mut sink, Severity::Debug, |v| {
        calls.set(calls.get() + 1);
        format!("inner.ok {}", v + 1)
    });
    assert_eq!(out, ok(8));
    let out = err("e").log_ok_format(&mut sink, Severity::Debug, |v| {
        calls.set(calls.get() + 1);
        format!("inner.ok {}", v + 1)
    });
    assert_eq!(out, err("e"));
    assert_eq!(calls.get(), 1);
    assert_eq!(heard("inner.ok"), vec![result_line(log::Level::Debug, "inner.ok 9")]);
}

#[test]
fn log_err_format_hands_the_error_to_the_formatter() {
    listen();
    let mut sink = Sink::new();
    let calls = Cell::new(0);
    let out = err("late").log_err_format(&mut sink, Severity::Warn, |e| {
        calls.set(calls.get() + 1);
        format!("inner.err {}", e.len())
    });
    assert_eq!(out, err("late"));
    let out = ok(3).log_err_format(&mut sink, Severity::Warn, |e| {
        calls.set(calls.get() + 1);
        format!("inner.err {}", e.len())
    });
    assert_eq!(out, ok(3));
    assert_eq!(calls.get(), 1);
    assert_eq!(heard("inner.err"), vec![result_line(log::Level::Warn, "inner.err 4")]);
}

#[test]
fn result_when_methods_follow_the_answer_handed_in() {
    listen();
    let mut sink = Sink::new();
    let calls = Cell::new(0);
    let out = ok(1).log_format_when(&mut sink, false, Severity::Error, |_| {
        calls.set(calls.get() + 1);
        String::from("when.no")
    });
    assert_eq!(out, ok(1));
    let out = ok(1).log_ok_format_when(&mut sink, false, Severity::Error, |_| {
        calls.set(calls.get() + 1);
        String::from("when.no")
    });
    assert_eq!(out, ok(1));
    let out = err("e").log_err_format_when(&mut sink, false, Severity::Error, |_| {
        calls.set(calls.get() + 1);
        String::from("when.no")
    });
    assert_eq!(out, err("e"));
    assert_eq!(calls.get(), 0);
    assert_eq!(heard("when.no"), vec![]);

    let out = err("e").log_format_when(&mut sink, true, Severity::Error, |r| {
        calls.set(calls.get() + 1);
        format!("when.yes {:?}", r)
    });
    assert_eq!(out, err("e"));
    let out = ok(2).log_ok_format_when(&mut sink, true, Severity::Warn, |v| {
        calls.set(calls.get() + 1);
        format!("when.yes {}", v)
    });
    assert_eq!(out, ok(2));
    let out = err("f").log_err_format_when(&mut sink, true, Severity::Info, |e| {
        calls.set(calls.get() + 1);
        format!("when.yes {}", e)
    });
    assert_eq!(out, err("f"));
    assert_eq!(calls.get(), 3);
    assert_eq!(
        heard("when.yes"),
        vec![
            result_line(log::Level::Error, "when.yes Err(\"e\")"),
            result_line(log::Level::Warn, "when.yes 2"),
            result_line(log::Level::Info, "when.yes f"),
        ]
    );
}

#[test]
fn result_when_methods_are_silent_on_the_other_side() {
    listen();
    let mut sink = Sink::new();
    let calls = Cell::new(0);
    let out = err("e").log_ok_format_when(&mut sink, true, Severity::Error, |_| {
        calls.set(calls.get() + 1);
        String::from("when.side")
    });
    assert_eq!(out, err("e"));
    let out = ok(1).log_err_format_when(&mut sink, true, Severity::Error, |_| {
        calls.set(calls.get() + 1);
        String::from("when.side")
    });
    assert_eq!(out, ok(1));
    assert_eq!(calls.get(), 0);
    assert_eq!(heard("when.side"), vec![]);
}

#[test]
fn result_format_sugar_logs_at_the_level_of_its_name() {
    listen();
    let mut sink = Sink::new();
    assert_eq!(ok(1).trace_format(&mut sink, |r| format!("fs.t {:?}", r)), ok(1));
    assert_eq!(ok(1).trace_ok_format(&mut sink, |v| format!("fs.t {}", v)), ok(1));
    assert_eq!(err("e").trace_err_format(&mut sink, |e| format!("fs.t {}", e)), err("e"));
    assert_eq!(ok(1).debug_format(&mut sink, |r| format!("fs.d {:?}", r)), ok(1));
    assert_eq!(ok(1).debug_ok_format(&mut sink, |v| format!("fs.d {}", v)), ok(1));
    assert_eq!(err("e").debug_err_format(&mut sink, |e| format!("fs.d {}", e)), err("e"));
    assert_eq!(ok(1).info_format(&mut sink, |r| format!("fs.i {:?}", r)), ok(1));
    assert_eq!(ok(1).info_ok_format(&mut sink, |v| format!("fs.i {}", v)), ok(1));
    assert_eq!(err("e").info_err_format(&mut sink, |e| format!("fs.i {}", e)), err("e"));
    assert_eq!(ok(1).warn_format(&mut sink, |r| format!("fs.w {:?}", r)), ok(1));
    assert_eq!(ok(1).warn_ok_format(&mut sink, |v| format!("fs.w {}", v)), ok(1));
    assert_eq!(err("e").warn_err_format(&mut sink, |e| format!("fs.w {}", e)), err("e"));
    assert_eq!(ok(1).error_format(&mut sink, |r| format!("fs.e {:?}", r)), ok(1));
    assert_eq!(ok(1).error_ok_format(&mut sink, |v| format!("fs.e {}", v)), ok(1));
    assert_eq!(err("e").error_err_format(&mut sink, |e| format!("fs.e {}", e)), err("e"));
    let marks = [
        ("fs.t", log::Level::Trace),
        ("fs.d", log::Level::Debug),
        ("fs.i", log::Level::Info),
        ("fs.w", log::Level::Warn),
        ("fs.e", log::Level::Error),
    ];
    for (mark, level) in marks {
        assert_eq!(
            heard(mark),
            vec![
                result_line(level, &format!("{} Ok(1)", mark)),
                result_line(level, &format!("{} 1", mark)),
                result_line(level, &format!("{} e", mark)),
            ]
        );
    }
}

#[test]
fn result_format_sugar_is_silent_on_the_other_side() {
    listen();
    let mut sink = Sink::new();
    let calls = Cell::new(0);
    let count = |text: &str| {
        calls.set(calls.get() + 1);
        String::from(text)
    };
    assert_eq!(err("e").trace_ok_format(&mut sink, |_| count("fs.off")), err("e"));
    assert_eq!(ok(1).trace_err_format(&mut sink, |_| count("fs.off")), ok(1));
    assert_eq!(err("e").debug_ok_format(&mut sink, |_| count("fs.off")), err("e"));
    assert_eq!(ok(1).debug_err_format(&mut sink, |_| count("fs.off")), ok(1));
    assert_eq!(err("e").info_ok_format(&mut sink, |_| count("fs.off")), err("e"));
    assert_eq!(ok(1).info_err_format(&mut sink, |_| count("fs.off")), ok(1));
    assert_eq!(err("e").warn_ok_format(&mut sink, |_| count("fs.off")), err("e"));
    assert_eq!(ok(1).warn_err_format(&mut sink, |_| count("fs.off")), ok(1));
    assert_eq!(err("e").error_ok_format(&mut sink, |_| count("fs.off")), err("e"));
    assert_eq!(ok(1).error_err_format(&mut sink, |_| count("fs.off")), ok(1));
    assert_eq!(calls.get(), 0);
    assert_eq!(heard("fs.off"), vec![]);
}

#[test]
fn warn_err_format_does_what_log_err_format_does_at_warn() {
    listen();
    let mut sink = Sink::new();
    let sugar = err("x").warn_err_format(&mut sink, |e| format!("ffwd {}", e));
    let generic = err("x").log_err_format(&mut sink, Severity::Warn, |e| format!("ffwd {}", e));
    assert_eq!(sugar, generic);
    assert_eq!(heard("ffwd"), vec![result_line(log::Level::Warn, "ffwd x"); 2]);
}

#[test]
fn result_passes_through_every_format_method() {
    listen();
    let mut sink = Sink::new();
    let good: Result<Vec<u8>, String> = Ok(vec![1, 2]);
    let good = good.log_format(&mut sink, Severity::Info, |_| String::from("pass.f"));
    let good = good.log_ok_format(&mut sink, Severity::Info, |_| String::from("pass.f"));
    let good = good.log_err_format(&mut sink, Severity::Info, |_| String::from("pass.f"));
    assert_eq!(good, Ok(vec![1, 2]));
    let bad: Result<Vec<u8>, String> = Err(String::from("kept"));
    let bad = bad.log_format(&mut sink, Severity::Info, |_| String::from("pass.f"));
    let bad = bad.log_ok_format(&mut sink, Severity::Info, |_| String::from("pass.f"));
    let bad = bad.log_err_format(&mut sink, Severity::Info, |_| String::from("pass.f"));
    assert_eq!(bad, Err(String::from("kept")));
    assert_eq!(heard("pass.f").len(), 4);
}

#[test]
fn result_format_methods_take_payloads_without_debug() {
    struct Opaque(u8);
    listen();
    let mut sink = Sink::new();
    let good: Result<Opaque, Opaque> = Ok(Opaque(4));
    let out = good.log_ok_format(&mut sink, Severity::Info, |v| format!("opaque ok {}", v.0));
    assert!(matches!(out, Ok(Opaque(4))));
    let bad: Result<Opaque, Opaque> = Err(Opaque(6));
    let out = bad.log_err_format(&mut sink, Severity::Info, |e| format!("opaque err {}", e.0));
    assert!(matches!(out, Err(Opaque(6))));
    assert_eq!(
        heard("opaque"),
        vec![
            result_line(log::Level::Info, "opaque ok 4"),
            result_line(log::Level::Info, "opaque err 6"),
        ]
    );
}

#[test]
fn result_methods_chain() {
    listen();
    let mut sink = Sink::new();
    let out = "12"
        .parse::<i32>()
        .debug_ok(&mut sink, "chain.a")
        .map(|v| v * 2)
        .error_err(&mut sink, "chain.b")
        .and_then(|_| "x".parse::<i32>())
        .warn_err_format(&mut sink, |e| format!("chain.c {}", e));
    assert!(out.is_err());
    assert_eq!(heard("chain.a"), vec![result_line(log::Level::Debug, "chain.a: 12")]);
    assert_eq!(heard("chain.b"), vec![]);
    assert_eq!(
        heard("chain.c"),
        vec![result_line(log::Level::Warn, "chain.c invalid digit found in string")]
    );
}
