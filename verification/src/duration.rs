use vstd::prelude::*;
use vstd::string::*;

verus! {

/// Represents a duration of time.
///
/// A field that is `None`, or `Some(0)`, is absent: it does not appear in the
/// formatted text, and does not call for the time separator.
#[derive(Debug, Clone, Copy, PartialEq)]
#[allow(missing_docs)]
pub struct Duration {
    pub days: Option<usize>,
    pub hours: Option<usize>,
    pub minutes: Option<usize>,
    pub months: Option<usize>,
    pub seconds: Option<usize>,
    pub years: Option<usize>,
}

/// The character that stands for the digit `d`, for `d` below ten.
pub open spec fn digit_char(d: nat) -> char {
    if d == 0 {
        '0'
    } else if d == 1 {
        '1'
    } else if d == 2 {
        '2'
    } else if d == 3 {
        '3'
    } else if d == 4 {
        '4'
    } else if d == 5 {
        '5'
    } else if d == 6 {
        '6'
    } else if d == 7 {
        '7'
    } else if d == 8 {
        '8'
    } else {
        '9'
    }
}

/// The decimal numeral of `n`: no sign, no leading zero, `"0"` for zero.
pub open spec fn decimal(n: nat) -> Seq<char>
    decreases n,
{
    if n < 10 {
        seq![digit_char(n)]
    } else {
        decimal(n / 10).push(digit_char(n % 10))
    }
}

/// Whether a field of a duration is present: set, and positive. A field set
/// to zero counts as absent.
pub open spec fn is_present(num: Option<usize>) -> bool {
    match num {
        Some(n) => n > 0,
        None => false,
    }
}

/// One field of a formatted duration: the numeral and its designator when the
/// field is present, nothing otherwise.
pub open spec fn field_text(num: Option<usize>, code: Seq<char>) -> Seq<char> {
    match num {
        Some(n) => if n > 0 {
            decimal(n as nat) + code
        } else {
            Seq::empty()
        },
        None => Seq::empty(),
    }
}

/// Whether a field of a duration is present: set, and positive.
pub fn present(num: Option<usize>) -> (r: bool)
    ensures
        r == is_present(num),
{
    match num {
        Some(n) => n > 0,
        None => false,
    }
}

impl Duration {
    /// The date part of the formatted text: years, months, days, in this order.
    pub open spec fn date_text(self) -> Seq<char> {
        field_text(self.years, seq!['Y']) + field_text(self.months, seq!['M']) + field_text(
            self.days,
            seq!['D'],
        )
    }

    /// Whether the formatted text has a time part: one of hours, minutes,
    /// seconds is set and positive.
    pub open spec fn has_time(self) -> bool {
        is_present(self.hours) || is_present(self.minutes) || is_present(self.seconds)
    }

    /// The time part of the formatted text: the separator `T`, then hours,
    /// minutes, seconds, in this order; empty when none of the three is
    /// present.
    pub open spec fn time_text(self) -> Seq<char> {
        if self.has_time() {
            seq!['T'] + field_text(self.hours, seq!['H']) + field_text(self.minutes, seq!['M'])
                + field_text(self.seconds, seq!['S'])
        } else {
            Seq::empty()
        }
    }

    /// The formatted text: the marker `P`, the date part, the time part.
    pub open spec fn text(self) -> Seq<char> {
        seq!['P'] + self.date_text() + self.time_text()
    }

    /// Creates a new instance of Duration with all values set to None.
    pub fn new() -> (d: Duration)
        ensures
            d.days is None,
            d.hours is None,
            d.minutes is None,
            d.months is None,
            d.seconds is None,
            d.years is None,
    {
        Duration {
            days: None,
            hours: None,
            minutes: None,
            months: None,
            seconds: None,
            years: None,
        }
    }

    /// Formats a duration to a string similar to the durations of ISO 8601.
    ///
    /// The order of the fields is fixed: it is what a task store requires.
    pub fn to_string(&self) -> (s: String)
        ensures
            s@ == self.text(),
    {
        let mut s = String::from_str("P");
        proof {
            reveal_strlit("P");
            reveal_strlit("Y");
            reveal_strlit("M");
            reveal_strlit("D");
            reveal_strlit("T");
            reveal_strlit("H");
            reveal_strlit("S");
            assert(s@ =~= seq!['P']);
        }
        format_duration(&mut s, self.years, "Y");
        format_duration(&mut s, self.months, "M");
        format_duration(&mut s, self.days, "D");
        assert(s@ =~= seq!['P'] + self.date_text());
        if present(self.hours) || present(self.minutes) || present(self.seconds) {
            s.append("T");
            format_duration(&mut s, self.hours, "H");
            format_duration(&mut s, self.minutes, "M");
            format_duration(&mut s, self.seconds, "S");
            assert(s@ =~= seq!['P'] + self.date_text() + self.time_text());
        } else {
            assert(s@ =~= seq!['P'] + self.date_text() + self.time_text());
        }
        s
    }
}

impl Default for Duration {
    fn default() -> (d: Duration)
        ensures
            d.days is None,
            d.hours is None,
            d.minutes is None,
            d.months is None,
            d.seconds is None,
            d.years is None,
    {
        Duration::new()
    }
}

/// The one-character text of the digit `d`.
fn digit_text(d: usize) -> (t: &'static str)
    requires
        d < 10,
    ensures
        t@ == seq![digit_char(d as nat)],
{
    proof {
        reveal_strlit("0");
        reveal_strlit("1");
        reveal_strlit("2");
        reveal_strlit("3");
        reveal_strlit("4");
        reveal_strlit("5");
        reveal_strlit("6");
        reveal_strlit("7");
        reveal_strlit("8");
        reveal_strlit("9");
    }
    let t = if d == 0 {
        "0"
    } else if d == 1 {
        "1"
    } else if d == 2 {
        "2"
    } else if d == 3 {
        "3"
    } else if d == 4 {
        "4"
    } else if d == 5 {
        "5"
    } else if d == 6 {
        "6"
    } else if d == 7 {
        "7"
    } else if d == 8 {
        "8"
    } else {
        "9"
    };
    assert(t@ =~= seq![digit_char(d as nat)]);
    t
}

/// Appends the decimal numeral of `n` to `s`.
pub fn push_decimal(s: &mut String, n: usize)
    ensures
        final(s)@ == old(s)@ + decimal(n as nat),
    decreases n,
{
    if n >= 10 {
        push_decimal(s, n / 10);
    }
    s.append(digit_text(n % 10));
    assert(final(s)@ =~= old(s)@ + decimal(n as nat));
}

/// Appends one field of a duration to `s`: the numeral of `num` followed by
/// `code` when `num` is set and positive, nothing otherwise.
pub fn format_duration(s: &mut String, num: Option<usize>, code: &str)
    ensures
        final(s)@ == old(s)@ + field_text(num, code@),
{
    if let Some(n) = num {
        if n > 0 {
            push_decimal(s, n);
            s.append(code);
        }
    }
    assert(final(s)@ =~= old(s)@ + field_text(num, code@));
}

} // verus!
