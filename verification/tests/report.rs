use std::io;

use easytiming::sink::Sink;
use easytiming::text::display_line;
use easytiming::text::display_with;
use easytiming::text::push_decimal;
use easytiming::text::report_line;
use easytiming::Lapse;
use easytiming::Timing;

/// Splits a report line into the name and the number that it shows.
fn parse(line: &str) -> (String, u32) {
    let rest = line.strip_prefix('"').expect("opening quote");
    let rest = rest.strip_suffix(" ns").expect("unit");
    let at = rest.rfind("\" was running for ").expect("wording");
    let name = &rest[..at];
    let digits = &rest[at + "\" was running for ".len()..];
    assert!(!digits.is_empty());
    assert!(digits.bytes().all(|b| b.is_ascii_digit()));
    assert!(digits == "0" || !digits.starts_with('0'));
    (name.to_string(), digits.parse().expect("number"))
}

/// A writer that refuses everything.
struct Broken;

impl io::Write for Broken {
    fn write(&mut self, _buf: &[u8]) -> io::Result<usize> {
        Err(io::Error::new(io::ErrorKind::Other, "broken"))
    }

    fn flush(&mut self) -> io::Result<()> {
        Err(io::Error::new(io::ErrorKind::Other, "broken"))
    }
}

#[test]
fn report_line_has_the_exact_wording() {
    assert_eq!(report_line("catch", 123), "\"catch\" was running for 123 ns");
    assert_eq!(report_line("simple", 0), "\"simple\" was running for 0 ns");
    assert_eq!(report_line("", 7), "\"\" was running for 7 ns");
    assert_eq!(
        report_line("do_something() function", 999_999_999),
        "\"do_something() function\" was running for 999999999 ns"
    );
    assert_eq!(report_line("a \"b\"", 1_000), "\"a \"b\"\" was running for 1000 ns");
}

#[test]
fn decimal_notation_matches_the_standard_one() {
    for n in [0u32, 1, 9, 10, 11, 99, 100, 101, 1_000, 65_535, 999_999_999, 1_000_000_000, u32::MAX] {
        let mut out = String::from("n=");
        push_decimal(&mut out, n);
        assert_eq!(out, format!("n={}", n));
    }
}

#[test]
fn display_line_uses_the_readable_duration() {
    assert_eq!(
        display_line("x", Lapse { secs: 1, nanos: 500_000_000 }),
        "Timing(x) is running for 1.5s"
    );
    assert_eq!(display_line("x", Lapse { secs: 0, nanos: 7 }), "Timing(x) is running for 7ns");
    assert_eq!(
        display_line("load", Lapse { secs: 0, nanos: 20_000_000 }),
        "Timing(load) is running for 20ms"
    );
    assert_eq!(display_line("", Lapse { secs: 0, nanos: 0 }), "Timing() is running for 0ns");
    assert_eq!(
        display_line("long", Lapse { secs: 3, nanos: 0 }),
        "Timing(long) is running for 3s"
    );
}

#[test]
fn display_goes_by_the_clock() {
    let t: Timing = Timing::new("shown");
    let first = t.display();
    let second = t.display();
    assert!(first.starts_with("Timing(shown) is running for "));
    assert!(second.starts_with("Timing(shown) is running for "));
    assert!(first.len() > "Timing(shown) is running for ".len());
}

#[test]
fn elapsed_does_not_go_back() {
    let t: Timing = Timing::new("clock");
    let a = t.elapsed();
    let b = t.elapsed();
    let c = t.elapsed();
    assert!(a.nanos < 1_000_000_000);
    assert!(b.nanos < 1_000_000_000);
    assert!((a.secs, a.nanos) <= (b.secs, b.nanos));
    assert!((b.secs, b.nanos) <= (c.secs, c.nanos));
    assert!(!t.is_finished());
}

#[test]
fn finish_writes_one_line_to_the_writer() {
    let mut out = Vec::<u8>::new();
    let line;
    let lapse;
    {
        let mut t = Timing::with_writer("catch", &mut out);
        assert_eq!(t.lapse(), Lapse { secs: 0, nanos: 0 });
        line = t.finish().expect("the first finish reports");
        lapse = t.lapse();
        assert!(t.is_finished());
    }
    assert_eq!(out, line.as_bytes());
    let (name, nanos) = parse(&line);
    assert_eq!(name, "catch");
    assert!(nanos <= 999_999_999);
    assert_eq!(nanos, lapse.nanos);
    assert_eq!(line, report_line("catch", lapse.nanos));
}

#[test]
fn finish_at_reports_the_nanosecond_part_only() {
    let mut out = Vec::<u8>::new();
    {
        let mut t = Timing::with_writer("long", &mut out);
        let line = t.finish_at(Lapse { secs: 5, nanos: 42 });
        assert_eq!(line.as_deref(), Some("\"long\" was running for 42 ns"));
        assert_eq!(t.lapse(), Lapse { secs: 5, nanos: 42 });
    }
    assert_eq!(out, b"\"long\" was running for 42 ns");
}

#[test]
fn a_second_finish_does_nothing() {
    let mut out = Vec::<u8>::new();
    {
        let mut t = Timing::with_writer("once", &mut out);
        assert!(t.finish_at(Lapse { secs: 0, nanos: 1 }).is_some());
        assert_eq!(t.finish_at(Lapse { secs: 9, nanos: 9 }), None);
        assert_eq!(t.finish(), None);
        assert_eq!(t.lapse(), Lapse { secs: 0, nanos: 1 });
        assert!(t.is_finished());
    }
    assert_eq!(out, b"\"once\" was running for 1 ns");
}

#[test]
fn a_quiet_timer_measures_and_says_nothing() {
    let mut t: Timing = Timing::quiet();
    assert!(t.is_quiet());
    assert_eq!(t.finish_at(Lapse { secs: 2, nanos: 3 }), None);
    assert!(t.is_finished());
    assert_eq!(t.lapse(), Lapse { secs: 2, nanos: 3 });
    assert_eq!(t.finish(), None);
}

#[test]
fn a_refusing_writer_is_not_heard_of() {
    let mut t = Timing::with_writer("broken", Broken);
    let line = t.finish_at(Lapse { secs: 0, nanos: 5 });
    assert_eq!(line.as_deref(), Some("\"broken\" was running for 5 ns"));
    assert!(t.is_finished());
}

#[test]
fn a_discarding_writer_is_fine() {
    let mut t: Timing<io::Sink> = Timing::with_writer("write", io::sink());
    let line = t.finish().expect("the first finish reports");
    let (name, nanos) = parse(&line);
    assert_eq!(name, "write");
    assert!(nanos <= 999_999_999);
}

#[test]
fn the_console_timer_reports_its_line() {
    let mut t: Timing = Timing::new("simple");
    let line = t.finish().expect("the first finish reports");
    let (name, nanos) = parse(&line);
    assert_eq!(name, "simple");
    assert!(nanos <= 999_999_999);
}

#[test]
fn the_console_gets_a_line_feed_and_a_writer_does_not() {
    let console: Sink<Vec<u8>> = Sink::Println;
    assert!(console.is_console());
    assert_eq!(console.payload("line"), "line\n");
    let writer: Sink<Vec<u8>> = Sink::Writer(Vec::new());
    assert!(!writer.is_console());
    assert_eq!(writer.payload("line"), "line");
}

#[test]
fn emit_hands_the_text_to_the_writer() {
    let mut out = Vec::<u8>::new();
    {
        let mut sink = Sink::Writer(&mut out);
        assert!(sink.emit("one"));
        assert!(sink.emit("two"));
    }
    assert_eq!(out, b"onetwo");
    let mut broken = Sink::Writer(Broken);
    assert!(!broken.emit("lost"));
    let mut console: Sink<Vec<u8>> = Sink::Println;
    assert!(console.emit("to the console"));
    assert!(console.is_console());
}

#[test]
fn the_empty_lapse_is_zero() {
    assert_eq!(Lapse::zero(), Lapse { secs: 0, nanos: 0 });
}

#[test]
fn display_with_frames_the_rendered_time() {
    assert_eq!(display_with("simple", "2s"), "Timing(simple) is running for 2s");
    assert_eq!(display_with("", ""), "Timing() is running for ");
    assert_eq!(display_with("a(b)", "1.5ms"), "Timing(a(b)) is running for 1.5ms");
    assert_eq!(
        display_line("simple", Lapse { secs: 2, nanos: 0 }),
        display_with("simple", "2s")
    );
}

#[test]
fn a_timer_holds_its_writer_untouched_until_it_reports() {
    let mut out = b"before ".to_vec();
    {
        let t = Timing::with_writer("held", &mut out);
        assert_eq!(t.name(), "held");
        let _ = t.display();
        let _ = t.elapsed();
    }
    assert_eq!(out, b"before ");
    {
        let mut t = Timing::with_writer("held", &mut out);
        assert!(t.finish_at(Lapse { secs: 0, nanos: 3 }).is_some());
        assert_eq!(t.finish(), None);
    }
    assert_eq!(out, b"before \"held\" was running for 3 ns");
}
