//! The two lines of text that a timer can produce.

use vstd::prelude::*;
use vstd::string::*;

use crate::clock::Lapse;
use crate::clock::NANOS_PER_SEC;

verus! {

/// The character that stands for one decimal digit.
pub open spec fn digit_char(d: nat) -> char {
    if d == 0 {
        '0'
    } else if d == 1 {
        '1'
    } else if d == 2 {
        '2'
    } else if d == 3 {
        '3'
    } else if d == 4 {
        '4'
    } else if d == 5 {
        '5'
    } else if d == 6 {
        '6'
    } else if d == 7 {
        '7'
    } else if d == 8 {
        '8'
    } else {
        '9'
    }
}

/// A number in decimal notation: no sign, no leading zero, `"0"` for zero.
pub open spec fn decimal(n: nat) -> Seq<char>
    decreases n,
{
    if n < 10 {
        seq![digit_char(n)]
    } else {
        decimal(n / 10).push(digit_char(n % 10))
    }
}

/// The report line of a timer called `name` whose measured span has `nanos`
/// nanoseconds beyond its whole seconds.
pub open spec fn report_text(name: Seq<char>, nanos: nat) -> Seq<char> {
    "\""@ + name + "\" was running for "@ + decimal(nanos) + " ns"@
}

/// What `{:?}` prints for a `std::time::Duration` of `secs` seconds and
/// `nanos` nanoseconds.
pub uninterp spec fn duration_debug(secs: u64, nanos: u32) -> Seq<char>;

/// The diagnostic line of a running timer called `name` whose time since its
/// start is shown as `shown`.
pub open spec fn display_frame(name: Seq<char>, shown: Seq<char>) -> Seq<char> {
    "Timing("@ + name + ") is running for "@ + shown
}

/// The diagnostic line of a running timer called `name`, `secs` seconds and
/// `nanos` nanoseconds after its start.
pub open spec fn display_text(name: Seq<char>, secs: u64, nanos: u32) -> Seq<char> {
    display_frame(name, duration_debug(secs, nanos))
}

fn digit_str(d: u32) -> (r: &'static str)
    requires
        d < 10,
    ensures
        r@ == seq![digit_char(d as nat)],
{
    proof {
        reveal_strlit("0");
        reveal_strlit("1");
        reveal_strlit("2");
        reveal_strlit("3");
        reveal_strlit("4");
        reveal_strlit("5");
        reveal_strlit("6");
        reveal_strlit("7");
        reveal_strlit("8");
        reveal_strlit("9");
    }
    let r = match d {
        0 => "0",
        1 => "1",
        2 => "2",
        3 => "3",
        4 => "4",
        5 => "5",
        6 => "6",
        7 => "7",
        8 => "8",
        _ => "9",
    };
    assert(r@ =~= seq![digit_char(d as nat)]);
    r
}

/// Appends `n` in decimal notation to `out`.
pub fn push_decimal(out: &mut String, n: u32)
    ensures
        final(out)@ == old(out)@ + decimal(n as nat),
    decreases n,
{
    if n >= 10 {
        push_decimal(out, n / 10);
    }
    out.append(digit_str(n % 10));
    assert(out@ =~= old(out)@ + decimal(n as nat));
}

/// Builds the report line: the name in double quotes, the words
/// `was running for`, the nanoseconds in decimal notation, and `ns`.
pub fn report_line(name: &str, nanos: u32) -> (line: String)
    ensures
        line@ == report_text(name@, nanos as nat),
{
    let mut line = String::from_str("\"");
    line.append(name);
    line.append("\" was running for ");
    push_decimal(&mut line, nanos);
    line.append(" ns");
    line
}

/// Formats a `std::time::Duration` of `secs` seconds and `nanos` nanoseconds
/// with `{:?}`, the standard library's human-readable form (`1.5s`, `20ms`,
/// `7ns`). Its rules take pages, so the result only has a name. With `nanos`
/// below one second `Duration::new` carries nothing over and cannot overflow.
#[verifier::external_body]
fn debug_text(secs: u64, nanos: u32) -> (r: String)
    requires
        nanos < NANOS_PER_SEC,
    ensures
        r@ == duration_debug(secs, nanos),
{
    format!("{:?}", std::time::Duration::new(secs, nanos))
}

/// Builds the diagnostic line of a running timer from its name and the
/// time since its start as it is to be shown: `Timing(`, the name,
/// `) is running for`, and `shown`.
pub fn display_with(name: &str, shown: &str) -> (line: String)
    ensures
        line@ == display_frame(name@, shown@),
{
    let mut line = String::from_str("Timing(");
    line.append(name);
    line.append(") is running for ");
    line.append(shown);
    line
}

/// Builds the diagnostic line of a running timer: `Timing(`, the name,
/// `) is running for`, and the span since its start in human-readable form.
pub fn display_line(name: &str, span: Lapse) -> (line: String)
    requires
        span.wf(),
    ensures
        line@ == display_text(name@, span.secs, span.nanos),
{
    let shown = debug_text(span.secs, span.nanos);
    display_with(name, shown.as_str())
}

/// The digit that a character stands for; zero for any other character.
pub open spec fn digit_value(c: char) -> nat {
    if c == '1' {
        1
    } else if c == '2' {
        2
    } else if c == '3' {
        3
    } else if c == '4' {
        4
    } else if c == '5' {
        5
    } else if c == '6' {
        6
    } else if c == '7' {
        7
    } else if c == '8' {
        8
    } else if c == '9' {
        9
    } else {
        0
    }
}

/// Whether a character is one of the ten decimal digits.
pub open spec fn is_digit(c: char) -> bool {
    c == '0' || digit_value(c) != 0
}

/// The number that a run of decimal digits denotes.
pub open spec fn decimal_value(digits: Seq<char>) -> nat
    decreases digits.len(),
{
    if digits.len() == 0 {
        0
    } else {
        decimal_value(digits.drop_last()) * 10 + digit_value(digits.last())
    }
}

/// Decimal notation can be read back: it has at least one character, every
/// character is a digit, and the digits denote the number that was written.
pub proof fn lemma_decimal_reads_back(n: nat)
    ensures
        decimal(n).len() >= 1,
        forall|i: int| 0 <= i < decimal(n).len() ==> is_digit(#[trigger] decimal(n)[i]),
        decimal_value(decimal(n)) == n,
    decreases n,
{
    if n < 10 {
        let s = decimal(n);
        assert(s.drop_last() =~= Seq::<char>::empty());
        assert(decimal_value(s.drop_last()) == 0);
        assert(s.last() == digit_char(n));
    } else {
        lemma_decimal_reads_back(n / 10);
        let s = decimal(n);
        assert(s.drop_last() =~= decimal(n / 10));
        assert(s.last() == digit_char(n % 10));
    }
}

/// The nanoseconds of a report never take more than nine digits.
pub proof fn lemma_decimal_of_nanos_is_short(nanos: nat)
    requires
        nanos < NANOS_PER_SEC,
    ensures
        1 <= decimal(nanos).len() <= 9,
{
    reveal_with_fuel(decimal, 10);
}

/// A report line is the name between double quotes, then a space, the words
/// `was running for`, a space, the number, a space and `ns`.
pub proof fn lemma_report_text_layout(name: Seq<char>, nanos: nat)
    ensures
        report_text(name, nanos).len() == name.len() + decimal(nanos).len() + 22,
        report_text(name, nanos)[0] == '"',
        report_text(name, nanos).subrange(1, 1 + name.len() as int) == name,
        report_text(name, nanos).subrange(1 + name.len() as int, 19 + name.len() as int)
            == "\" was running for "@,
        report_text(name, nanos).subrange(
            19 + name.len() as int,
            19 + name.len() as int + decimal(nanos).len() as int,
        ) == decimal(nanos),
        report_text(name, nanos).subrange(
            19 + name.len() as int + decimal(nanos).len() as int,
            22 + name.len() as int + decimal(nanos).len() as int,
        ) == " ns"@,
{
    reveal_strlit("\"");
    reveal_strlit("\" was running for ");
    reveal_strlit(" ns");
    let line = report_text(name, nanos);
    let n = name.len() as int;
    let d = decimal(nanos).len() as int;
    assert(line.subrange(1, 1 + n) =~= name);
    assert(line.subrange(1 + n, 19 + n) =~= "\" was running for "@);
    assert(line.subrange(19 + n, 19 + n + d) =~= decimal(nanos));
    assert(line.subrange(19 + n + d, 22 + n + d) =~= " ns"@);
}

/// Two timers whose report lines agree for the same number have the same
/// name: the line shows the name in full.
pub proof fn lemma_report_text_shows_name(a: Seq<char>, b: Seq<char>, nanos: nat)
    requires
        report_text(a, nanos) == report_text(b, nanos),
    ensures
        a == b,
{
    lemma_report_text_layout(a, nanos);
    lemma_report_text_layout(b, nanos);
}

} // verus!
