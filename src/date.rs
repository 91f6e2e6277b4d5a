use vstd::prelude::*;
use vstd::string::StringExecFns;
use vstd::string::StringSliceAdditionalSpecFns;
use vstd::utf8::{encode_utf8, is_ascii_chars, is_ascii_chars_encode_utf8};

verus! {

/// A calendar date without a time of day.
#[derive(Clone, Copy, Debug, PartialEq, Eq, Structural)]
pub struct Date {
    pub year: u32,
    pub month: u32,
    pub day: u32,
}

pub open spec fn is_leap(y: int) -> bool {
    (y % 4 == 0 && y % 100 != 0) || y % 400 == 0
}

pub open spec fn month_len(y: int, m: int) -> int {
    if m == 2 {
        if is_leap(y) { 29 } else { 28 }
    } else if m == 4 || m == 6 || m == 9 || m == 11 {
        30
    } else {
        31
    }
}

impl Date {
    /// A real date of the years 1 to 9999.
    pub open spec fn wf(self) -> bool {
        1 <= self.year <= 9999 && 1 <= self.month <= 12 && 1 <= self.day <= month_len(
            self.year as int,
            self.month as int,
        )
    }

    /// The day before, for any date but the first of January of the year 1.
    pub open spec fn prev(self) -> Date {
        if self.day > 1 {
            Date { day: (self.day - 1) as u32, ..self }
        } else if self.month > 1 {
            Date {
                year: self.year,
                month: (self.month - 1) as u32,
                day: month_len(self.year as int, self.month - 1) as u32,
            }
        } else {
            Date { year: (self.year - 1) as u32, month: 12, day: 31 }
        }
    }

    /// The date `n` days earlier.
    pub open spec fn minus(self, n: nat) -> Date
        decreases n,
    {
        if n == 0 {
            self
        } else {
            self.prev().minus((n - 1) as nat)
        }
    }

    /// Going back `n` days stays within the year 1 or later.
    pub open spec fn can_go_back(self, n: nat) -> bool {
        self.year > 1 || self.month > 1 || self.day > n
    }
}

pub fn days_in_month(year: u32, month: u32) -> (r: u32)
    ensures
        r == month_len(year as int, month as int),
{
    if month == 2 {
        if (year % 4 == 0 && year % 100 != 0) || year % 400 == 0 {
            29
        } else {
            28
        }
    } else if month == 4 || month == 6 || month == 9 || month == 11 {
        30
    } else {
        31
    }
}

impl Date {
    /// The date of the given year, month and day, where it exists.
    pub fn from_ymd(year: u32, month: u32, day: u32) -> (r: Option<Date>)
        ensures
            r == (if (Date { year, month, day }).wf() {
                Some(Date { year, month, day })
            } else {
                None
            }),
    {
        if 1 <= year && year <= 9999 && 1 <= month && month <= 12 && 1 <= day && day
            <= days_in_month(year, month) {
            Some(Date { year, month, day })
        } else {
            None
        }
    }

    /// The date `n` days before this one.
    pub fn minus_days(&self, n: u32) -> (r: Date)
        requires
            self.wf(),
            n <= 28,
            self.can_go_back(n as nat),
        ensures
            r == self.minus(n as nat),
            r.wf(),
    {
        let mut cur = *self;
        let mut i: u32 = 0;
        while i < n
            invariant
                i <= n <= 28,
                cur.wf(),
                cur.can_go_back((n - i) as nat),
                cur.minus((n - i) as nat) == self.minus(n as nat),
            decreases n - i,
        {
            assert(cur.minus((n - i) as nat) == cur.prev().minus((n - i - 1) as nat));
            if cur.day > 1 {
                cur = Date { day: cur.day - 1, ..cur };
            } else if cur.month > 1 {
                let m = cur.month - 1;
                cur = Date { year: cur.year, month: m, day: days_in_month(cur.year, m) };
            } else {
                cur = Date { year: cur.year - 1, month: 12, day: 31 };
            }
            i = i + 1;
        }
        cur
    }
}


/// The decimal digit that stands for `n`, for `n` below ten.
pub open spec fn digit_char(n: int) -> char {
    if n == 0 { '0' } else if n == 1 { '1' } else if n == 2 { '2' } else if n == 3 { '3' }
    else if n == 4 { '4' } else if n == 5 { '5' } else if n == 6 { '6' } else if n == 7 { '7' }
    else if n == 8 { '8' } else { '9' }
}

/// The value of an ASCII digit byte.
pub open spec fn digit_value(b: u8) -> int {
    b - 48
}

pub open spec fn is_digit(b: u8) -> bool {
    48 <= b <= 57
}

impl Date {
    /// The date written `YYYY-MM-DD`.
    pub open spec fn text(self) -> Seq<char> {
        seq![
            digit_char((self.year / 1000) as int),
            digit_char((self.year / 100 % 10) as int),
            digit_char((self.year / 10 % 10) as int),
            digit_char((self.year % 10) as int),
            '-',
            digit_char((self.month / 10) as int),
            digit_char((self.month % 10) as int),
            '-',
            digit_char((self.day / 10) as int),
            digit_char((self.day % 10) as int),
        ]
    }
}

/// The number written by the digit bytes `b[from..to]`.
pub open spec fn digits_value(b: Seq<u8>, from: int, to: int) -> int
    decreases to - from,
{
    if to <= from {
        0
    } else {
        digits_value(b, from, to - 1) * 10 + digit_value(b[to - 1])
    }
}

/// The date that the bytes `YYYY-MM-DD` write, if they write one.
pub open spec fn date_of_bytes(b: Seq<u8>) -> Option<Date> {
    if b.len() == 10 && b[4] == 45u8 && b[7] == 45u8 && (forall|i: int|
        0 <= i < 10 && i != 4 && i != 7 ==> is_digit(#[trigger] b[i])) {
        let d = Date {
            year: digits_value(b, 0, 4) as u32,
            month: digits_value(b, 5, 7) as u32,
            day: digits_value(b, 8, 10) as u32,
        };
        if d.wf() {
            Some(d)
        } else {
            None
        }
    } else {
        None
    }
}

fn digit_str(n: u32) -> (r: &'static str)
    requires
        n < 10,
    ensures
        r@ == seq![digit_char(n as int)],
{
    proof {
        reveal_strlit("0");
        reveal_strlit("1");
        reveal_strlit("2");
        reveal_strlit("3");
        reveal_strlit("4");
        reveal_strlit("5");
        reveal_strlit("6");
        reveal_strlit("7");
        reveal_strlit("8");
        reveal_strlit("9");
    }
    if n == 0 { "0" } else if n == 1 { "1" } else if n == 2 { "2" } else if n == 3 { "3" }
    else if n == 4 { "4" } else if n == 5 { "5" } else if n == 6 { "6" } else if n == 7 { "7" }
    else if n == 8 { "8" } else { "9" }
}

/// The number written by `b[from..to]`, all of them digits.
fn read_digits(b: &[u8], from: usize, to: usize) -> (r: u32)
    requires
        from <= to <= b@.len(),
        to - from <= 4,
        forall|i: int| from <= i < to ==> is_digit(#[trigger] b@[i]),
    ensures
        r == digits_value(b@, from as int, to as int),
{
    let mut v: u32 = 0;
    let mut i: usize = from;
    while i < to
        invariant
            from <= i <= to <= b@.len(),
            to - from <= 4,
            forall|k: int| from <= k < to ==> is_digit(#[trigger] b@[k]),
            v == digits_value(b@, from as int, i as int),
            v < pow10((i - from) as nat),
        decreases to - i,
    {
        assert(is_digit(b@[i as int]));
        proof {
            reveal_with_fuel(pow10, 5);
        }
        v = v * 10 + (b[i] - 48) as u32;
        i = i + 1;
    }
    v
}

pub open spec fn pow10(n: nat) -> int
    decreases n,
{
    if n == 0 {
        1
    } else {
        10 * pow10((n - 1) as nat)
    }
}

impl Date {
    /// Reads a date written `YYYY-MM-DD`.
    pub fn parse(s: &str) -> (r: Option<Date>)
        ensures
            r == date_of_bytes(s.spec_bytes()),
    {
        let b = s.as_bytes();
        if b.len() != 10 || b[4] != 45u8 || b[7] != 45u8 {
            return None;
        }
        let mut i: usize = 0;
        while i < 10
            invariant
                b@ == s.spec_bytes(),
                b@.len() == 10,
                b@[4] == 45u8 && b@[7] == 45u8,
                i <= 10,
                forall|k: int| 0 <= k < i && k != 4 && k != 7 ==> is_digit(#[trigger] b@[k]),
            decreases 10 - i,
        {
            if i != 4 && i != 7 && !(48u8 <= b[i] && b[i] <= 57u8) {
                assert(!is_digit(b@[i as int]));
                return None;
            }
            i = i + 1;
        }
        let year = read_digits(b, 0, 4);
        let month = read_digits(b, 5, 7);
        let day = read_digits(b, 8, 10);
        Date::from_ymd(year, month, day)
    }

    /// Writes the date as `YYYY-MM-DD`.
    pub fn format(&self) -> (r: String)
        requires
            self.wf(),
        ensures
            r@ == self.text(),
    {
        let mut r = String::from_str(digit_str(self.year / 1000));
        r.append(digit_str(self.year / 100 % 10));
        r.append(digit_str(self.year / 10 % 10));
        r.append(digit_str(self.year % 10));
        proof {
            reveal_strlit("-");
        }
        r.append("-");
        r.append(digit_str(self.month / 10));
        r.append(digit_str(self.month % 10));
        r.append("-");
        r.append(digit_str(self.day / 10));
        r.append(digit_str(self.day % 10));
        assert(r@ =~= self.text());
        r
    }
}

/// An optional start and an optional end date of a query.
pub struct TimeOpts {
    pub start: Option<Date>,
    pub end: Option<Date>,
}

impl TimeOpts {
    pub open spec fn wf(self) -> bool {
        (self.start matches Some(s) ==> s.wf()) && (self.end matches Some(e) ==> e.wf())
    }

    /// The end date: the given one, or else today.
    pub open spec fn end_date(self, today: Date) -> Date {
        match self.end {
            Some(e) => e,
            None => today,
        }
    }

    /// The start date: the given one, or else a week before the end date.
    pub open spec fn start_date(self, today: Date) -> Date {
        match self.start {
            Some(s) => s,
            None => self.end_date(today).minus(7),
        }
    }

    /// The concrete start and end dates, `today` standing in for a missing end
    /// and the week before the end for a missing start. An inverted range is
    /// passed through as it is.
    pub fn resolve(&self, today: Date) -> (r: (Date, Date))
        requires
            self.wf(),
            self.end is None ==> today.wf(),
            self.start is None ==> self.end_date(today).can_go_back(7),
        ensures
            r.0 == self.start_date(today),
            r.1 == self.end_date(today),
            r.0.wf(),
            r.1.wf(),
    {
        let end = match self.end {
            Some(e) => e,
            None => today,
        };
        let start = match self.start {
            Some(s) => s,
            None => end.minus_days(7),
        };
        (start, end)
    }
}


impl Date {
    /// Whether a following day exists within the years up to 9999.
    pub open spec fn has_next(self) -> bool {
        !(self.year >= 9999 && self.month == 12 && self.day == 31)
    }

    /// The day after.
    pub open spec fn next(self) -> Date {
        if self.day < month_len(self.year as int, self.month as int) {
            Date { day: (self.day + 1) as u32, ..self }
        } else if self.month < 12 {
            Date { year: self.year, month: (self.month + 1) as u32, day: 1 }
        } else {
            Date { year: (self.year + 1) as u32, month: 1, day: 1 }
        }
    }
}

/// The date `n` days after the first of January 1970, where it is within the
/// years up to 9999.
pub open spec fn epoch_plus(n: nat) -> Option<Date>
    decreases n,
{
    if n == 0 {
        Some(Date { year: 1970, month: 1, day: 1 })
    } else {
        match epoch_plus((n - 1) as nat) {
            Some(d) => if d.has_next() {
                Some(d.next())
            } else {
                None
            },
            None => None,
        }
    }
}

impl Date {
    /// The date `days` days after the first of January 1970.
    pub fn from_epoch_days(days: u32) -> (r: Option<Date>)
        ensures
            r == epoch_plus(days as nat),
            r matches Some(d) ==> d.wf(),
    {
        let mut cur = Date { year: 1970, month: 1, day: 1 };
        let mut i: u32 = 0;
        while i < days
            invariant
                i <= days,
                cur.wf(),
                epoch_plus(i as nat) == Some(cur),
            decreases days - i,
        {
            if cur.year >= 9999 && cur.month == 12 && cur.day == 31 {
                proof {
                    lemma_epoch_plus_stays_none(i as nat + 1, days as nat);
                }
                return None;
            }
            if cur.day < days_in_month(cur.year, cur.month) {
                cur = Date { day: cur.day + 1, ..cur };
            } else if cur.month < 12 {
                cur = Date { year: cur.year, month: cur.month + 1, day: 1 };
            } else {
                cur = Date { year: cur.year + 1, month: 1, day: 1 };
            }
            i = i + 1;
        }
        Some(cur)
    }
}

proof fn lemma_epoch_plus_stays_none(m: nat, n: nat)
    requires
        m <= n,
        epoch_plus(m) is None,
    ensures
        epoch_plus(n) is None,
    decreases n - m,
{
    if m < n {
        lemma_epoch_plus_stays_none(m + 1, n);
    }
}


proof fn lemma_digit_char(n: int)
    requires
        0 <= n < 10,
    ensures
        digit_char(n) as u8 == 48 + n,
        '\0' <= digit_char(n) <= '\u{7f}',
{
}

proof fn lemma_digits_of(b: Seq<u8>, from: int, v: int, width: nat)
    requires
        1 <= width <= 4,
        0 <= from,
        from + width <= b.len(),
        0 <= v < pow10(width),
        forall|i: int|
            0 <= i < width ==> #[trigger] b[from + i] == 48 + (v / pow10((width - 1 - i) as nat)) % 10,
    ensures
        digits_value(b, from, from + width) == v,
    decreases width,
{
    reveal_with_fuel(pow10, 5);
    if width == 1 {
        assert(b[from + 0] == 48 + v % 10);
        assert(digits_value(b, from, from) == 0);
    } else {
        let w1 = (width - 1) as nat;
        let hi = v / 10;
        assert(0 <= hi < pow10(w1)) by (nonlinear_arith)
            requires
                0 <= v < pow10(width),
                pow10(width) == 10 * pow10(w1),
                hi == v / 10,
        ;
        assert forall|i: int| 0 <= i < w1 implies #[trigger] b[from + i] == 48 + (hi / pow10(
            (w1 - 1 - i) as nat,
        )) % 10 by {
            assert(b[from + i] == 48 + (v / pow10((width - 1 - i) as nat)) % 10);
            let p = pow10((w1 - 1 - i) as nat);
            assert(pow10((width - 1 - i) as nat) == 10 * p);
            assert(p > 0) by {
                lemma_pow10_pos((w1 - 1 - i) as nat);
            }
            assert(v / (10 * p) == (v / 10) / p) by {
                vstd::arithmetic::div_mod::lemma_div_denominator(v, 10, p);
            }
        }
        lemma_digits_of(b, from, hi, w1);
        assert(b[from + w1] == 48 + (v / pow10(0)) % 10);
        assert(v == hi * 10 + v % 10);
    }
}

proof fn lemma_pow10_pos(n: nat)
    ensures
        pow10(n) > 0,
    decreases n,
{
    if n > 0 {
        lemma_pow10_pos((n - 1) as nat);
    }
}

/// Reading back the text that a valid date is written as gives that date.
pub proof fn lemma_text_parses_back(d: Date)
    requires
        d.wf(),
    ensures
        date_of_bytes(encode_utf8(d.text())) == Some(d),
{
    let t = d.text();
    let (y, m, dd) = (d.year as int, d.month as int, d.day as int);
    lemma_digit_char(y / 1000);
    lemma_digit_char(y / 100 % 10);
    lemma_digit_char(y / 10 % 10);
    lemma_digit_char(y % 10);
    lemma_digit_char(m / 10);
    lemma_digit_char(m % 10);
    lemma_digit_char(dd / 10);
    lemma_digit_char(dd % 10);
    assert(is_ascii_chars(t));
    is_ascii_chars_encode_utf8(t);
    let b = encode_utf8(t);
    assert(b.len() == 10);
    assert(b[0] == t[0] as u8 && b[1] == t[1] as u8 && b[2] == t[2] as u8 && b[3] == t[3] as u8);
    assert(b[5] == t[5] as u8 && b[6] == t[6] as u8 && b[8] == t[8] as u8 && b[9] == t[9] as u8);
    assert(b[4] == t[4] as u8 && b[7] == t[7] as u8);
    reveal_with_fuel(pow10, 5);
    assert(y / 1000 % 10 == y / 1000);
    assert(y / 1 % 10 == y % 10);
    assert(m / 1 % 10 == m % 10);
    assert(m / 10 % 10 == m / 10);
    assert(dd / 1 % 10 == dd % 10);
    assert(dd / 10 % 10 == dd / 10);
    lemma_digits_of(b, 0, y, 4);
    lemma_digits_of(b, 5, m, 2);
    lemma_digits_of(b, 8, dd, 2);
    assert forall|i: int| 0 <= i < 10 && i != 4 && i != 7 implies is_digit(#[trigger] b[i]) by {
        assert(0 <= i <= 3 || 5 <= i <= 6 || 8 <= i <= 9);
    }
}

} // verus!
