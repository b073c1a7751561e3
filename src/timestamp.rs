//! The local time at the start of a log line.
use chrono::{Datelike, Timelike};
use vstd::prelude::*;

verus! {

/// A local date and time as plain numbers.
#[derive(Debug, Clone, Copy, PartialEq, Eq, Structural)]
pub struct LocalTime {
    pub year: i32,
    /// 1 to 12.
    pub month: u32,
    /// 1 to 31.
    pub day: u32,
    /// 0 to 23.
    pub hour: u32,
    /// 0 to 59.
    pub minute: u32,
    /// 0 to 59.
    pub second: u32,
    /// Nanoseconds since the whole second; from 1,000,000,000 on, a leap
    /// second.
    pub nanosecond: u32,
}

impl LocalTime {
    pub open spec fn wf(self) -> bool {
        &&& 1 <= self.month <= 12
        &&& 1 <= self.day <= 31
        &&& self.hour <= 23
        &&& self.minute <= 59
        &&& self.second <= 59
        &&& self.nanosecond < 2_000_000_000
    }

    /// The second as shown: 60 during a leap second.
    pub open spec fn shown_second(self) -> nat {
        (self.second + self.nanosecond / 1_000_000_000) as nat
    }

    /// The milliseconds of the second as shown.
    pub open spec fn shown_millis(self) -> nat {
        ((self.nanosecond / 1_000_000) % 1000) as nat
    }
}

/// The decimal digit `d`.
pub open spec fn digit_char(d: nat) -> char {
    seq!['0', '1', '2', '3', '4', '5', '6', '7', '8', '9'][d as int]
}

/// The decimal digits of `n`, without leading zeros.
pub open spec fn dec_digits(n: nat) -> Seq<char>
    decreases n,
{
    if n < 10 {
        seq![digit_char(n)]
    } else {
        dec_digits((n / 10) as nat).push(digit_char(n % 10))
    }
}

/// The decimal digits of `n`, with zeros in front up to `width` characters.
pub open spec fn zero_padded(n: nat, width: nat) -> Seq<char> {
    let d = dec_digits(n);
    if d.len() < width {
        Seq::new((width - d.len()) as nat, |i: int| '0') + d
    } else {
        d
    }
}

/// A year as four digits; out of 0 to 9999, with its sign in front.
pub open spec fn year_text(y: int) -> Seq<char> {
    if 0 <= y <= 9999 {
        zero_padded(y as nat, 4)
    } else if y > 9999 {
        seq!['+'] + zero_padded(y as nat, 4)
    } else {
        seq!['-'] + zero_padded((-y) as nat, 4)
    }
}

/// `YYYY-MM-DD HH:MM:SS`, then `.mmm` when `millis` is set, then a space.
pub open spec fn timestamp_text(t: LocalTime, millis: bool) -> Seq<char> {
    year_text(t.year as int) + seq!['-'] + zero_padded(t.month as nat, 2) + seq!['-'] + zero_padded(
        t.day as nat,
        2,
    ) + seq![' '] + zero_padded(t.hour as nat, 2) + seq![':'] + zero_padded(t.minute as nat, 2)
        + seq![':'] + zero_padded(t.shown_second(), 2) + (if millis {
        seq!['.'] + zero_padded(t.shown_millis(), 3)
    } else {
        Seq::empty()
    }) + seq![' ']
}

fn digit_str(d: u64) -> (r: &'static str)
    requires
        d < 10,
    ensures
        r@ == seq![digit_char(d as nat)],
{
    proof {
        reveal_strlit("0");
        reveal_strlit("1");
        reveal_strlit("2");
        reveal_strlit("3");
        reveal_strlit("4");
        reveal_strlit("5");
        reveal_strlit("6");
        reveal_strlit("7");
        reveal_strlit("8");
        reveal_strlit("9");
    }
    let r = if d == 0 {
        "0"
    } else if d == 1 {
        "1"
    } else if d == 2 {
        "2"
    } else if d == 3 {
        "3"
    } else if d == 4 {
        "4"
    } else if d == 5 {
        "5"
    } else if d == 6 {
        "6"
    } else if d == 7 {
        "7"
    } else if d == 8 {
        "8"
    } else {
        "9"
    };
    assert(r@ =~= seq![digit_char(d as nat)]);
    r
}

/// The decimal digits of `n`.
pub fn decimal(n: u64) -> (r: String)
    ensures
        r@ == dec_digits(n as nat),
    decreases n,
{
    if n < 10 {
        String::from_str(digit_str(n))
    } else {
        let mut s = decimal(n / 10);
        s.append(digit_str(n % 10));
        assert(s@ =~= dec_digits(n as nat));
        s
    }
}

/// The decimal digits of `n` with zeros in front up to `width` characters.
pub fn zero_pad(n: u64, width: usize) -> (r: String)
    ensures
        r@ == zero_padded(n as nat, width as nat),
{
    let d = decimal(n);
    let len = d.as_str().unicode_len();
    let pad: usize = if len < width {
        width - len
    } else {
        0
    };
    let mut s = String::new();
    let mut k: usize = 0;
    while k < pad
        invariant
            k <= pad,
            s@ =~= Seq::new(k as nat, |i: int| '0'),
        decreases pad - k,
    {
        proof {
            reveal_strlit("0");
        }
        s.append("0");
        k = k + 1;
    }
    s.append(d.as_str());
    assert(s@ =~= zero_padded(n as nat, width as nat));
    s
}

/// A year as `year_text` writes it.
pub fn format_year(y: i32) -> (r: String)
    ensures
        r@ == year_text(y as int),
{
    proof {
        reveal_strlit("+");
        reveal_strlit("-");
    }
    if 0 <= y && y <= 9999 {
        zero_pad(y as u64, 4)
    } else if y > 9999 {
        let mut s = String::from_str("+");
        let p = zero_pad(y as u64, 4);
        s.append(p.as_str());
        assert(s@ =~= year_text(y as int));
        s
    } else {
        let mut s = String::from_str("-");
        let m: i64 = -(y as i64);
        let p = zero_pad(m as u64, 4);
        s.append(p.as_str());
        assert(s@ =~= year_text(y as int));
        s
    }
}

/// The timestamp of `t` as `timestamp_text` writes it.
pub fn format_timestamp(t: &LocalTime, millis: bool) -> (r: String)
    ensures
        r@ == timestamp_text(*t, millis),
{
    proof {
        reveal_strlit("-");
        reveal_strlit(" ");
        reveal_strlit(":");
        reveal_strlit(".");
    }
    let mut s = format_year(t.year);
    s.append("-");
    s.append(zero_pad(t.month as u64, 2).as_str());
    s.append("-");
    s.append(zero_pad(t.day as u64, 2).as_str());
    s.append(" ");
    s.append(zero_pad(t.hour as u64, 2).as_str());
    s.append(":");
    s.append(zero_pad(t.minute as u64, 2).as_str());
    s.append(":");
    let second: u64 = t.second as u64 + (t.nanosecond / 1_000_000_000) as u64;
    s.append(zero_pad(second, 2).as_str());
    if millis {
        s.append(".");
        let ms: u64 = ((t.nanosecond / 1_000_000) % 1000) as u64;
        s.append(zero_pad(ms, 3).as_str());
    }
    s.append(" ");
    assert(s@ =~= timestamp_text(*t, millis));
    s
}

/// Relies on `chrono::Local::now` and the `Datelike` and `Timelike`
/// accessors, whose documentation gives the ranges of month (1 to 12), day
/// (1 to 31), hour (0 to 23), minute (0 to 59), second (0 to 59) and
/// nanosecond (below 2,000,000,000, a leap second from 1,000,000,000).
#[verifier::external_body]
fn local_now() -> (r: LocalTime)
    ensures
        r.wf(),
{
    let now = chrono::Local::now();
    LocalTime {
        year: now.year(),
        month: now.month(),
        day: now.day(),
        hour: now.hour(),
        minute: now.minute(),
        second: now.second(),
        nanosecond: now.nanosecond(),
    }
}

/// The timestamp that starts a line: empty when timestamps are off, else
/// the local time now, with milliseconds when `millis` is set.
pub fn timestamp_prefix(timestamp: bool, millis: bool) -> (r: String)
    ensures
        !timestamp ==> r@.len() == 0,
        timestamp ==> exists|t: LocalTime| t.wf() && r@ == #[trigger] timestamp_text(t, millis),
{
    if !timestamp {
        String::new()
    } else {
        let t = local_now();
        format_timestamp(&t, millis)
    }
}

} // verus!
