//! Timing of an asynchronous computation.
//!
//! A [`Timing`] of this module keeps the computation beside a timer. Whoever
//! drives the computation shows each step's outcome to [`Timing::observe`],
//! which hands it back untouched and notes the moment at which the
//! computation settled: the first step that is ready or has failed.

use vstd::prelude::*;
use std::borrow::Cow;
use std::io::Write;
use std::time::Instant;

use crate::clock::now;
use crate::clock::Lapse;
use crate::label::names;
use crate::sink::Sink;
use crate::text::display_line;
use crate::text::display_text;
use crate::timing::line_text;
use crate::timing::TimingView;

verus! {

/// What one step of a computation yields when it does not fail.
#[derive(Clone, Debug, PartialEq, Eq)]
pub enum Step<T> {
    /// The computation has finished with this value.
    Ready(T),
    /// The computation has to be driven again.
    NotReady,
}

/// A step settles the computation when it is ready or has failed.
pub open spec fn settles<T, E>(outcome: Result<Step<T>, E>) -> bool {
    !(outcome matches Ok(Step::NotReady))
}

/// Whether `outcome` settles the computation.
pub fn has_settled<T, E>(outcome: &Result<Step<T>, E>) -> (r: bool)
    ensures
        r == settles(*outcome),
{
    match outcome {
        Ok(Step::NotReady) => false,
        _ => true,
    }
}

/// The settling instant after a step with `outcome` seen at `at`: the first
/// settling step records its instant, and no later step replaces it.
pub open spec fn settled_at<T, E>(
    before: Option<Instant>,
    outcome: Result<Step<T>, E>,
    at: Instant,
) -> Option<Instant> {
    if before is None && settles(outcome) {
        Some(at)
    } else {
        before
    }
}

/// A computation settles once: after a step that settled it, no later step
/// changes the settling instant, whatever its outcome.
pub proof fn lemma_settles_once<T, E, U, F>(
    before: Option<Instant>,
    first: Result<Step<T>, E>,
    at: Instant,
    second: Result<Step<U>, F>,
    later: Instant,
)
    requires
        settles(first),
    ensures
        settled_at(before, first, at) is Some,
        settled_at(settled_at(before, first, at), second, later) == settled_at(before, first, at),
{
}

/// A step that is not ready records nothing, and a step that is ready or has
/// failed records its instant if none was recorded before.
pub proof fn lemma_settled_at_cases<T, E>(outcome: Result<Step<T>, E>, at: Instant)
    ensures
        outcome matches Ok(Step::NotReady) ==> settled_at(None, outcome, at) is None,
        outcome matches Ok(Step::Ready(_)) ==> settled_at(None, outcome, at) == Some(at),
        outcome is Err ==> settled_at(None, outcome, at) == Some(at),
{
}

/// A computation with a timer around it.
#[derive(Debug)]
pub struct Timing<'a, A, W = std::io::Stdout> {
    /// The computation that is timed.
    pub inner: A,
    timer: crate::timing::Timing<'a, W>,
    completed: Option<Instant>,
}

/// What a timed computation is, apart from the writer that it may own.
pub struct TimedView<A> {
    /// The computation that is timed.
    pub inner: A,
    /// The timer around the computation.
    pub timer: TimingView,
    /// The instant at which the computation settled, once it has.
    pub completed: Option<Instant>,
}

impl<'a, A, W> View for Timing<'a, A, W> {
    type V = TimedView<A>;

    closed spec fn view(&self) -> TimedView<A> {
        TimedView { inner: self.inner, timer: self.timer@, completed: self.completed }
    }
}

impl<'a, A, W> Timing<'a, A, W> {
    /// The sink that the timer holds: the console, or the writer that it was
    /// given, in the state in which the timer's reports have left it.
    pub closed spec fn held_sink(&self) -> Sink<W> {
        self.timer.held_sink()
    }

    /// The timer's name.
    pub fn name(&self) -> (r: &str)
        ensures
            r@ == self@.timer.name,
    {
        self.timer.name()
    }

    /// Whether a step has settled the computation.
    pub fn is_settled(&self) -> (r: bool)
        ensures
            r == (self@.completed is Some),
    {
        self.completed.is_some()
    }

    /// The instant at which the computation settled, once it has.
    pub fn completed(&self) -> (r: Option<Instant>)
        ensures
            r == self@.completed,
    {
        self.completed
    }

    /// The span that the finish measured; empty before it.
    pub fn lapse(&self) -> (r: Lapse)
        ensures
            r == self@.timer.lapse,
    {
        self.timer.lapse()
    }

    /// The time since the timer's start, read from the clock at each call.
    pub fn elapsed(&self) -> (r: Lapse)
        ensures
            r.wf(),
    {
        self.timer.elapsed()
    }

    /// The diagnostic line of the timer, for the time that has passed at this
    /// call.
    pub fn display(&self) -> (line: String)
        ensures
            exists|secs: u64, nanos: u32|
                nanos < crate::clock::NANOS_PER_SEC && line@ == #[trigger] display_text(
                    self@.timer.name,
                    secs,
                    nanos,
                ),
    {
        let span = self.timer.elapsed();
        let line = display_line(self.timer.name(), span);
        assert(line@ == display_text(self@.timer.name, span.secs, span.nanos));
        line
    }

    /// Takes the outcome of one step of the computation, seen at `at`, and
    /// hands it back as it came. The first outcome that settles the
    /// computation makes `at` the settling instant.
    pub fn observe_at<T, E>(&mut self, outcome: Result<Step<T>, E>, at: Instant) -> (r: Result<
        Step<T>,
        E,
    >)
        ensures
            r == outcome,
            final(self)@.inner == old(self)@.inner,
            final(self)@.timer == old(self)@.timer,
            final(self).held_sink() == old(self).held_sink(),
            final(self)@.completed == settled_at(old(self)@.completed, outcome, at),
    {
        if has_settled(&outcome) && self.completed.is_none() {
            self.completed = Some(at);
        }
        outcome
    }

    /// Takes the outcome of one step of the computation and hands it back as
    /// it came. The first outcome that settles the computation has the
    /// current instant recorded; the clock is not read for any other.
    pub fn observe<T, E>(&mut self, outcome: Result<Step<T>, E>) -> (r: Result<Step<T>, E>)
        ensures
            r == outcome,
            final(self)@.inner == old(self)@.inner,
            final(self)@.timer == old(self)@.timer,
            final(self).held_sink() == old(self).held_sink(),
            exists|at: Instant|
                final(self)@.completed == #[trigger] settled_at(old(self)@.completed, outcome, at),
    {
        if self.completed.is_some() || !has_settled(&outcome) {
            assert(self@.completed == settled_at(
                old(self)@.completed,
                outcome,
                self@.timer.start,
            ));
            outcome
        } else {
            let at = now();
            let r = self.observe_at(outcome, at);
            assert(self@.completed == settled_at(old(self)@.completed, outcome, at));
            r
        }
    }
}

impl<'a, A, W: Write> Timing<'a, A, W> {
    /// Wraps `inner` with a timer named by `name` that reports to the console,
    /// started now.
    pub fn new<N: Into<Cow<'a, str>>>(inner: A, name: N) -> (r: Self)
        ensures
            r@.inner == inner,
            r@.completed is None,
            names(name, r@.timer.name),
            !r@.timer.quiet,
            !r@.timer.finished,
            r@.timer.console,
            r.held_sink() == Sink::<W>::Println,
            r@.timer.wf(),
    {
        Timing { inner, timer: crate::timing::Timing::new(name), completed: None }
    }

    /// Wraps `inner` with a timer named by `name` that reports to `writer`,
    /// started now.
    pub fn with_writer<N: Into<Cow<'a, str>>>(inner: A, name: N, writer: W) -> (r: Self)
        ensures
            r@.inner == inner,
            r@.completed is None,
            names(name, r@.timer.name),
            !r@.timer.quiet,
            !r@.timer.finished,
            !r@.timer.console,
            r.held_sink() == Sink::Writer(writer),
            r@.timer.wf(),
    {
        Timing { inner, timer: crate::timing::Timing::with_writer(name, writer), completed: None }
    }

    /// Finishes the timer with `span` as the measured time, whether or not
    /// the computation has settled. The first finish keeps `span` as the
    /// lapse and reports: the line goes to the sink and is returned. A later
    /// finish does nothing.
    pub fn finish_at(&mut self, span: Lapse) -> (line: Option<String>)
        requires
            span.wf(),
        ensures
            final(self)@.inner == old(self)@.inner,
            final(self)@.completed == old(self)@.completed,
            final(self)@.timer == old(self)@.timer.finish(span),
            line_text(line) == old(self)@.timer.report(span),
            old(self)@.timer.quiet || old(self)@.timer.finished ==> final(self).held_sink() == old(
                self,
            ).held_sink(),
    {
        self.timer.finish_at(span)
    }

    /// Finishes the timer now: measures the time from its start to this call,
    /// not to the settling instant, and goes on as [`Timing::finish_at`] does
    /// with that span.
    pub fn finish(&mut self) -> (line: Option<String>)
        ensures
            final(self)@.inner == old(self)@.inner,
            final(self)@.completed == old(self)@.completed,
            exists|span: Lapse|
                span.wf() && final(self)@.timer == #[trigger] old(self)@.timer.finish(span)
                    && line_text(line) == old(self)@.timer.report(span),
            old(self)@.timer.quiet || old(self)@.timer.finished ==> final(self).held_sink() == old(
                self,
            ).held_sink(),
    {
        let span = self.timer.elapsed();
        let line = self.timer.finish_at(span);
        assert(self@.timer == old(self)@.timer.finish(span));
        line
    }
}

/// Wraps a computation with a console timer in one call. The library never
/// drives the computation itself and so asks nothing of its type.
pub trait FutureExt: Sized {
    /// Wraps `self` with a timer named by `name` that reports to the console,
    /// started now.
    fn timing<'a, N: Into<Cow<'a, str>>>(self, name: N) -> (r: Timing<'a, Self>)
        ensures
            r@.inner == self,
            r@.completed is None,
            names(name, r@.timer.name),
            !r@.timer.quiet,
            !r@.timer.finished,
            r@.timer.console,
            r.held_sink() == Sink::<std::io::Stdout>::Println,
            r@.timer.wf(),
    ;
}

impl<F> FutureExt for F {
    fn timing<'a, N: Into<Cow<'a, str>>>(self, name: N) -> (r: Timing<'a, Self>) {
        Timing::new(self, name)
    }
}

} // verus!
