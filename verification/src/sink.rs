//! Where a report line goes.

use vstd::prelude::*;
use vstd::string::*;
use std::io::Stdout;
use std::io::Write;

verus! {

/// `std::io::Stdout`: the handle of the process's standard output.
#[verifier::external_type_specification]
#[verifier::external_body]
pub struct ExStdout(std::io::Stdout);

/// The destination of a timer's report, chosen when the timer is made.
#[derive(Debug)]
pub enum Sink<W> {
    /// The console: the line is printed on standard output, followed by a
    /// line feed.
    Println,
    /// A writer that the timer owns: the line is written to it as it is.
    Writer(W),
}

/// The text that a sink receives for one report line.
pub open spec fn payload_text(console: bool, line: Seq<char>) -> Seq<char> {
    if console {
        line + "\n"@
    } else {
        line
    }
}

/// Calls `std::io::stdout`. Nothing is claimed of the handle.
#[verifier::external_body]
fn console() -> (r: Stdout)
{
    std::io::stdout()
}

/// Calls `Write::write_fmt` on `out`, through `write!`, with `text` as the
/// whole output, and tells whether the writer accepted it. Nothing is claimed
/// of the writer afterwards, nor of the answer: both are the writer's affair.
#[verifier::external_body]
fn write_text<W: Write>(out: &mut W, text: &str) -> (accepted: bool)
{
    write!(out, "{}", text).is_ok()
}

impl<W> Sink<W> {
    /// Whether the sink is the console.
    pub open spec fn spec_is_console(&self) -> bool {
        self is Println
    }

    /// Whether the sink is the console.
    #[verifier::when_used_as_spec(spec_is_console)]
    pub fn is_console(&self) -> (r: bool)
        ensures
            r == self.spec_is_console(),
    {
        match self {
            Sink::Println => true,
            Sink::Writer(_) => false,
        }
    }

    /// The text that this sink is handed for `line`.
    pub fn payload(&self, line: &str) -> (text: String)
        ensures
            text@ == payload_text(self.spec_is_console(), line@),
    {
        let mut text = String::from_str(line);
        if self.is_console() {
            text.append("\n");
        }
        text
    }
}

impl<W: Write> Sink<W> {
    /// Hands `line` to the sink and tells whether the sink accepted it. A
    /// sink that refuses the text is left alone: the refusal goes no further
    /// than the answer.
    pub fn emit(&mut self, line: &str) -> (accepted: bool)
        ensures
            final(self).spec_is_console() == old(self).spec_is_console(),
    {
        let text = self.payload(line);
        match self {
            Sink::Println => {
                let mut out = console();
                write_text(&mut out, text.as_str())
            },
            Sink::Writer(out) => write_text(out, text.as_str()),
        }
    }
}

} // verus!
