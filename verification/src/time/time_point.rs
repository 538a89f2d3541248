//! A time in milliseconds, and its `HH:MM:SS,mmm` text.
use std::ops::Neg;
use vstd::prelude::*;
use vstd::std_specs::ops::NegSpecImpl;
use vstd::string::StringExecFns;

verus! {

/// Define a time in milliseconds
#[derive(Clone, Copy, Debug, PartialEq, Eq, Structural, PartialOrd, Ord, Hash)]
pub struct TimePoint(pub i64);

/// The character of a decimal digit.
pub open spec fn digit_char(d: int) -> char {
    if d == 0 {
        '0'
    } else if d == 1 {
        '1'
    } else if d == 2 {
        '2'
    } else if d == 3 {
        '3'
    } else if d == 4 {
        '4'
    } else if d == 5 {
        '5'
    } else if d == 6 {
        '6'
    } else if d == 7 {
        '7'
    } else if d == 8 {
        '8'
    } else {
        '9'
    }
}

/// The decimal digits of `n`, most significant first, without leading zeros.
pub open spec fn decimal(n: nat) -> Seq<char>
    decreases n,
{
    if n < 10 {
        seq![digit_char(n as int)]
    } else {
        decimal(n / 10).push(digit_char((n % 10) as int))
    }
}

/// The decimal digits of `n`, with zeros in front up to `width` characters.
pub open spec fn padded(n: nat, width: nat) -> Seq<char> {
    let digits = decimal(n);
    if digits.len() >= width {
        digits
    } else {
        Seq::new((width - digits.len()) as nat, |i: int| '0') + digits
    }
}

/// The text of a time of `msecs` milliseconds: `HH:MM:SS,mmm` of the absolute
/// value, after a `-` where the time is negative. Hours take at least two
/// digits, and more where they need them.
pub open spec fn time_text(msecs: int) -> Seq<char> {
    let t: nat = if msecs < 0 {
        (-msecs) as nat
    } else {
        msecs as nat
    };
    let sign: Seq<char> = if msecs < 0 {
        seq!['-']
    } else {
        seq![]
    };
    sign + padded(t / 3_600_000, 2) + seq![':'] + padded((t / 60_000) % 60, 2) + seq![':']
        + padded((t / 1000) % 60, 2) + seq![','] + padded(t % 1000, 3)
}

/// Quotient of `a` by `b > 0`, rounded toward zero.
pub open spec fn div_toward_zero(a: int, b: int) -> int {
    if a >= 0 {
        a / b
    } else {
        -((-a) / b)
    }
}

/// Remainder of `a` by `b > 0` that goes with [`div_toward_zero`]: it has the
/// sign of `a`.
pub open spec fn rem_toward_zero(a: int, b: int) -> int {
    a - b * div_toward_zero(a, b)
}

impl TimePoint {
    /// The time, in milliseconds.
    pub open spec fn millis(self) -> int {
        self.0 as int
    }

    /// Create a `TimePoint` from miliseconds
    #[must_use]
    pub fn from_msecs(time: i64) -> (t: Self)
        ensures
            t.millis() == time,
    {
        Self(time)
    }

    /// The whole time in milliseconds.
    pub fn msecs(self) -> (r: i64)
        ensures
            r == self.millis(),
    {
        self.0
    }

    /// The whole time in seconds, rounded toward zero.
    pub fn secs(self) -> (r: i64)
        ensures
            r == div_toward_zero(self.millis(), 1000),
    {
        self.0 / 1000
    }

    /// The whole time in minutes, rounded toward zero.
    pub fn mins(self) -> (r: i64)
        ensures
            r == div_toward_zero(self.millis(), 60_000),
    {
        self.0 / (60 * 1000)
    }

    /// The whole time in hours, rounded toward zero.
    pub fn hours(self) -> (r: i64)
        ensures
            r == div_toward_zero(self.millis(), 3_600_000),
    {
        self.0 / (60 * 60 * 1000)
    }

    /// The minutes within the hour.
    pub fn mins_comp(self) -> (r: i64)
        ensures
            r == rem_toward_zero(div_toward_zero(self.millis(), 60_000), 60),
            -60 < r < 60,
    {
        self.mins() % 60
    }

    /// The seconds within the minute.
    pub fn secs_comp(self) -> (r: i64)
        ensures
            r == rem_toward_zero(div_toward_zero(self.millis(), 1000), 60),
            -60 < r < 60,
    {
        self.secs() % 60
    }

    /// The milliseconds within the second.
    pub fn msecs_comp(self) -> (r: i64)
        ensures
            r == rem_toward_zero(self.millis(), 1000),
            -1000 < r < 1000,
    {
        self.msecs() % 1000
    }
}

impl TimePoint {
    /// The absolute value of the time, in milliseconds.
    fn magnitude(self) -> (t: u64)
        ensures
            self.millis() >= 0 ==> t == self.millis(),
            self.millis() < 0 ==> t == -self.millis(),
    {
        if self.0 >= 0 {
            self.0 as u64
        } else if self.0 == i64::MIN {
            9_223_372_036_854_775_808u64
        } else {
            (-self.0) as u64
        }
    }

    /// The text of the time, as `HH:MM:SS,mmm`, with a `-` in front of a
    /// negative time.
    #[must_use]
    pub fn to_string(&self) -> (s: String)
        ensures
            s@ == time_text(self.millis()),
    {
        let t: u64 = self.magnitude();
        let mut out: String = String::new();
        if self.0 < 0 {
            proof {
                reveal_strlit("-");
            }
            out.append("-");
        }
        proof {
            reveal_strlit(":");
            reveal_strlit(",");
        }
        assert(out@ == if self.millis() < 0 {
            seq!['-']
        } else {
            Seq::<char>::empty()
        });
        push_padded(&mut out, t / 3_600_000, 2);
        out.append(":");
        push_padded(&mut out, (t / 60_000) % 60, 2);
        out.append(":");
        push_padded(&mut out, (t / 1000) % 60, 2);
        out.append(",");
        push_padded(&mut out, t % 1000, 3);
        out
    }
}

impl Neg for TimePoint {
    type Output = Self;

    /// The opposite time. The least time has no opposite.
    fn neg(self) -> (r: Self)
        ensures
            r.millis() == -self.millis(),
    {
        Self(-self.0)
    }
}

impl NegSpecImpl for TimePoint {
    open spec fn obeys_neg_spec() -> bool {
        true
    }

    open spec fn neg_req(self) -> bool {
        self.0 != i64::MIN
    }

    open spec fn neg_spec(self) -> Self {
        TimePoint((-self.0) as i64)
    }
}

/// The one-character text of a decimal digit.
fn digit_str(d: u64) -> (s: &'static str)
    requires
        d < 10,
    ensures
        s@ == seq![digit_char(d as int)],
{
    proof {
        reveal_strlit("0");
        reveal_strlit("1");
        reveal_strlit("2");
        reveal_strlit("3");
        reveal_strlit("4");
        reveal_strlit("5");
        reveal_strlit("6");
        reveal_strlit("7");
        reveal_strlit("8");
        reveal_strlit("9");
    }
    let s: &'static str = if d == 0 {
        "0"
    } else if d == 1 {
        "1"
    } else if d == 2 {
        "2"
    } else if d == 3 {
        "3"
    } else if d == 4 {
        "4"
    } else if d == 5 {
        "5"
    } else if d == 6 {
        "6"
    } else if d == 7 {
        "7"
    } else if d == 8 {
        "8"
    } else {
        "9"
    };
    assert(s@ =~= seq![digit_char(d as int)]);
    s
}

/// Number of decimal digits of `n`.
fn digit_count(n: u64) -> (count: u64)
    ensures
        count == decimal(n as nat).len(),
{
    let mut count: u64 = 1;
    let mut rest: u64 = n;
    while rest >= 10
        invariant
            1 <= count,
            count + decimal(rest as nat).len() == decimal(n as nat).len() + 1,
            count + rest <= n + 1,
        decreases rest,
    {
        rest = rest / 10;
        count = count + 1;
    }
    count
}

/// Appends the decimal digits of `n` to `out`.
pub fn push_decimal(out: &mut String, n: u64)
    ensures
        final(out)@ == old(out)@ + decimal(n as nat),
    decreases n,
{
    if n >= 10 {
        push_decimal(out, n / 10);
    }
    out.append(digit_str(n % 10));
}

/// Appends the decimal digits of `n` to `out`, after as many zeros as it takes
/// to fill `width` characters.
fn push_padded(out: &mut String, n: u64, width: u64)
    ensures
        final(out)@ == old(out)@ + padded(n as nat, width as nat),
{
    let count: u64 = digit_count(n);
    let mut done: u64 = count;
    while done < width
        invariant
            count <= done,
            done <= width || done == count,
            out@ == old(out)@ + Seq::new((done - count) as nat, |i: int| '0'),
        decreases width - done,
    {
        proof {
            reveal_strlit("0");
        }
        out.append("0");
        done = done + 1;
    }
    push_decimal(out, n);
}

} // verus!
