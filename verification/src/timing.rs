//! The scoped timer.

use vstd::prelude::*;
use std::borrow::Cow;
use std::io::Write;
use std::time::Instant;

use crate::clock::now;
use crate::clock::since;
use crate::clock::Lapse;
use crate::label::label_of;
use crate::label::names;
use crate::label::no_label;
use crate::label::text_of;
use crate::sink::Sink;
use crate::text::display_line;
use crate::text::display_text;
use crate::text::report_line;
use crate::text::report_text;
use crate::text::decimal;
use crate::text::decimal_value;
use crate::text::lemma_decimal_of_nanos_is_short;
use crate::text::lemma_decimal_reads_back;
use crate::text::lemma_report_text_layout;

verus! {

/// A timer: a name, the instant of its start, and a sink for its report.
///
/// Finishing the timer measures the time since its start, keeps it as the
/// timer's lapse and, unless the timer is quiet, hands one report line to the
/// sink. Only the first finish does anything.
#[derive(Debug)]
pub struct Timing<'a, W = std::io::Stdout> {
    start: Instant,
    lapse: Lapse,
    name: Cow<'a, str>,
    quiet: bool,
    finished: bool,
    sink: Sink<W>,
}

/// What a timer is, apart from the writer that it may own.
pub struct TimingView {
    /// The instant at which the timer was made.
    pub start: Instant,
    /// The measured span; empty until the timer is finished.
    pub lapse: Lapse,
    /// The label under which the timer reports.
    pub name: Seq<char>,
    /// A quiet timer measures and reports nothing.
    pub quiet: bool,
    /// Whether the timer has been finished.
    pub finished: bool,
    /// Whether the report goes to the console rather than to a writer.
    pub console: bool,
}

impl TimingView {
    /// A timer keeps an empty lapse until it is finished, and the nanosecond
    /// part of its lapse stays below one second.
    pub open spec fn wf(self) -> bool {
        &&& self.lapse.wf()
        &&& !self.finished ==> self.lapse == Lapse::spec_zero()
    }

    /// The timer after a finish that measured `span`: the first finish keeps
    /// the span and marks the timer, a later one changes nothing.
    pub open spec fn finish(self, span: Lapse) -> TimingView {
        if self.finished {
            self
        } else {
            TimingView { lapse: span, finished: true, ..self }
        }
    }

    /// The line that a finish that measured `span` reports, if it reports.
    pub open spec fn report(self, span: Lapse) -> Option<Seq<char>> {
        if self.finished || self.quiet {
            None
        } else {
            Some(report_text(self.name, span.nanos as nat))
        }
    }
}

/// The characters of an optional line.
pub open spec fn line_text(line: Option<String>) -> Option<Seq<char>> {
    match line {
        Some(l) => Some(l@),
        None => None,
    }
}

impl<'a, W> View for Timing<'a, W> {
    type V = TimingView;

    closed spec fn view(&self) -> TimingView {
        TimingView {
            start: self.start,
            lapse: self.lapse,
            name: self.name@,
            quiet: self.quiet,
            finished: self.finished,
            console: self.sink.spec_is_console(),
        }
    }
}

impl<'a, W> Default for Timing<'a, W> {
    /// A console timer without a name, started now.
    fn default() -> (r: Self)
        ensures
            r@.name == Seq::<char>::empty(),
            !r@.quiet,
            !r@.finished,
            r@.console,
            r.held_sink() == Sink::<W>::Println,
            r@.wf(),
    {
        Timing::fresh(now(), no_label(), false, Sink::Println)
    }
}

impl<'a, W> Timing<'a, W> {
    /// The sink that the timer holds: the console, or the writer that it was
    /// given, in the state in which the timer's reports have left it.
    pub closed spec fn held_sink(&self) -> Sink<W> {
        self.sink
    }

    /// The view's `console` tells the kind of the sink that the timer holds.
    pub proof fn lemma_console_is_the_sink_kind(&self)
        ensures
            self@.console == self.held_sink().spec_is_console(),
    {
    }

    /// An unfinished timer that started at `start`, with the given name,
    /// quietness and sink, all kept as they came.
    fn fresh(start: Instant, name: Cow<'a, str>, quiet: bool, sink: Sink<W>) -> (r: Self)
        ensures
            r@.start == start,
            r@.name == name@,
            r@.quiet == quiet,
            !r@.finished,
            r@.console == sink.spec_is_console(),
            r.held_sink() == sink,
            r@.wf(),
    {
        Timing { start, lapse: Lapse::zero(), name, quiet, finished: false, sink }
    }

    /// The timer's name.
    pub fn name(&self) -> (r: &str)
        ensures
            r@ == self@.name,
    {
        text_of(&self.name)
    }

    /// Whether the timer is quiet.
    pub fn is_quiet(&self) -> (r: bool)
        ensures
            r == self@.quiet,
    {
        self.quiet
    }

    /// Whether the timer has been finished.
    pub fn is_finished(&self) -> (r: bool)
        ensures
            r == self@.finished,
    {
        self.finished
    }

    /// The span that the finish measured; empty before it.
    pub fn lapse(&self) -> (r: Lapse)
        ensures
            r == self@.lapse,
    {
        self.lapse
    }

    /// The time since the timer's start, read from the clock at each call.
    pub fn elapsed(&self) -> (r: Lapse)
        ensures
            r.wf(),
    {
        let span = since(&self.start);
        Lapse::of(crate::clock::whole_secs(&span), crate::clock::subsec_nanos(&span))
    }

    /// The diagnostic line of the timer, for the time that has passed at this
    /// call: it goes by the clock, not by the lapse that a finish has kept.
    pub fn display(&self) -> (line: String)
        ensures
            exists|secs: u64, nanos: u32|
                nanos < crate::clock::NANOS_PER_SEC && line@ == #[trigger] display_text(
                    self@.name,
                    secs,
                    nanos,
                ),
    {
        let span = self.elapsed();
        let line = display_line(text_of(&self.name), span);
        assert(line@ == display_text(self@.name, span.secs, span.nanos));
        line
    }
}

impl<'a, W: Write> Timing<'a, W> {
    /// A timer that reports to the console, started now. Its name is the text
    /// that `name` converts into.
    pub fn new<N: Into<Cow<'a, str>>>(name: N) -> (r: Self)
        ensures
            names(name, r@.name),
            !r@.quiet,
            !r@.finished,
            r@.console,
            r.held_sink() == Sink::<W>::Println,
            r@.wf(),
    {
        Timing::fresh(now(), label_of(name), false, Sink::Println)
    }

    /// A timer without a name that measures and reports nothing, started now.
    pub fn quiet() -> (r: Self)
        ensures
            r@.name == Seq::<char>::empty(),
            r@.quiet,
            !r@.finished,
            r@.console,
            r.held_sink() == Sink::<W>::Println,
            r@.wf(),
    {
        Timing::fresh(now(), no_label(), true, Sink::Println)
    }

    /// A timer that reports to `writer`, started now. Its name is the text that
    /// `name` converts into, and it holds `writer` as it came: nothing is
    /// written before the timer is finished.
    pub fn with_writer<N: Into<Cow<'a, str>>>(name: N, writer: W) -> (r: Self)
        ensures
            names(name, r@.name),
            !r@.quiet,
            !r@.finished,
            !r@.console,
            r.held_sink() == Sink::Writer(writer),
            r@.wf(),
    {
        Timing::fresh(now(), label_of(name), false, Sink::Writer(writer))
    }

    /// Formats the report line for the kept lapse, hands it to the sink and
    /// returns it. A sink that refuses the line is not heard of again.
    fn report(&mut self) -> (line: String)
        ensures
            final(self)@ == old(self)@,
            line@ == report_text(old(self)@.name, old(self)@.lapse.nanos as nat),
    {
        let line = report_line(text_of(&self.name), self.lapse.nanos);
        let _ = self.sink.emit(line.as_str());
        line
    }

    /// Finishes the timer with `span` as the measured time. The first finish
    /// keeps `span` as the lapse and, unless the timer is quiet, reports: the
    /// line goes to the sink and is returned. A later finish does nothing, and
    /// the sink of a quiet or finished timer is left as it was.
    pub fn finish_at(&mut self, span: Lapse) -> (line: Option<String>)
        requires
            span.wf(),
        ensures
            final(self)@ == old(self)@.finish(span),
            line_text(line) == old(self)@.report(span),
            old(self)@.quiet || old(self)@.finished ==> final(self).held_sink() == old(
                self,
            ).held_sink(),
    {
        if self.finished {
            return None;
        }
        self.finished = true;
        self.lapse = span;
        if self.quiet {
            return None;
        }
        Some(self.report())
    }

    /// Finishes the timer now: measures the time since its start and goes on
    /// as [`Timing::finish_at`] does with that span.
    pub fn finish(&mut self) -> (line: Option<String>)
        ensures
            exists|span: Lapse|
                span.wf() && final(self)@ == #[trigger] old(self)@.finish(span) && line_text(line)
                    == old(self)@.report(span),
            old(self)@.quiet || old(self)@.finished ==> final(self).held_sink() == old(
                self,
            ).held_sink(),
    {
        let span = self.elapsed();
        let line = self.finish_at(span);
        assert(self@ == old(self)@.finish(span));
        line
    }
}

/// Finishing keeps a timer well formed, and changes neither its start, its
/// name, its quietness nor the kind of its sink.
pub proof fn lemma_finish_keeps(v: TimingView, span: Lapse)
    requires
        v.wf(),
        span.wf(),
    ensures
        v.finish(span).wf(),
        v.finish(span).finished,
        v.finish(span).start == v.start,
        v.finish(span).name == v.name,
        v.finish(span).quiet == v.quiet,
        v.finish(span).console == v.console,
{
}

/// A timer finishes once: a second finish changes nothing and reports
/// nothing, whatever it measured and whatever the first one did.
pub proof fn lemma_finish_once(v: TimingView, first: Lapse, second: Lapse)
    ensures
        v.finish(first).finish(second) == v.finish(first),
        v.finish(first).report(second) is None,
{
}

/// A quiet timer reports nothing, wherever its report would go, and still
/// keeps what it measured.
pub proof fn lemma_quiet_is_silent(v: TimingView, span: Lapse)
    requires
        v.quiet,
    ensures
        v.report(span) is None,
        !v.finished ==> v.finish(span).lapse == span,
{
}

/// The first finish of a timer that is not quiet reports exactly one line:
/// the timer's name in quotes and a number of at most nine digits that reads
/// back as the nanosecond part of what was measured, below one second.
pub proof fn lemma_first_finish_reports(v: TimingView, span: Lapse)
    requires
        !v.quiet,
        !v.finished,
        span.wf(),
    ensures
        v.report(span) == Some(report_text(v.name, span.nanos as nat)),
        report_text(v.name, span.nanos as nat).subrange(1, 1 + v.name.len() as int) == v.name,
        decimal_value(decimal(span.nanos as nat)) == span.nanos,
        decimal(span.nanos as nat).len() <= 9,
        0 <= span.nanos <= 999_999_999,
        v.finish(span).report(span) is None,
{
    lemma_report_text_layout(v.name, span.nanos as nat);
    lemma_decimal_reads_back(span.nanos as nat);
    lemma_decimal_of_nanos_is_short(span.nanos as nat);
}

} // verus!
