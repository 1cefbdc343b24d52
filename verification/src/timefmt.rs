//! Decimal rendering, zero padding, and wall-clock timestamps: the pieces
//! from which log lines and rotated-file names are built.

use vstd::prelude::*;
use vstd::string::StringExecFns;

verus! {

/// The decimal digit character for `d` (`d < 10`).
pub open spec fn digit_char(d: nat) -> char {
    if d == 0 {
        '0'
    } else if d == 1 {
        '1'
    } else if d == 2 {
        '2'
    } else if d == 3 {
        '3'
    } else if d == 4 {
        '4'
    } else if d == 5 {
        '5'
    } else if d == 6 {
        '6'
    } else if d == 7 {
        '7'
    } else if d == 8 {
        '8'
    } else {
        '9'
    }
}

/// Decimal rendering of `n`, most significant digit first, no leading zeros.
pub open spec fn dec_seq(n: nat) -> Seq<char>
    decreases n,
{
    if n < 10 {
        seq![digit_char(n)]
    } else {
        dec_seq(n / 10) + seq![digit_char(n % 10)]
    }
}

/// Number of decimal digits of `n`.
pub open spec fn dec_len(n: nat) -> nat
    decreases n,
{
    if n < 10 {
        1
    } else {
        dec_len(n / 10) + 1
    }
}

/// `dec_seq(n)` has exactly `dec_len(n)` characters.
pub proof fn lemma_dec_seq_len(n: nat)
    ensures
        dec_seq(n).len() == dec_len(n),
    decreases n,
{
    if n >= 10 {
        lemma_dec_seq_len(n / 10);
    }
}

/// The digit count of every number below one million, range by range.
pub proof fn lemma_dec_len_bounds(n: nat)
    ensures
        n < 10 ==> dec_len(n) == 1,
        10 <= n < 100 ==> dec_len(n) == 2,
        100 <= n < 1000 ==> dec_len(n) == 3,
        1000 <= n < 10000 ==> dec_len(n) == 4,
        10000 <= n < 100000 ==> dec_len(n) == 5,
        100000 <= n < 1000000 ==> dec_len(n) == 6,
    decreases n,
{
    if n >= 10 {
        lemma_dec_len_bounds(n / 10);
    }
}

/// Decimal rendering of `n` left-padded with zeros to at least `w` characters.
pub open spec fn zero_pad(n: nat, w: nat) -> Seq<char> {
    if dec_len(n) >= w {
        dec_seq(n)
    } else {
        Seq::new((w - dec_len(n)) as nat, |i: int| '0') + dec_seq(n)
    }
}

/// The one-character string for a single decimal digit.
fn digit_str(d: u64) -> (r: &'static str)
    requires
        d < 10,
    ensures
        r@ == seq![digit_char(d as nat)],
{
    let r: &'static str = match d {
        0 => "0",
        1 => "1",
        2 => "2",
        3 => "3",
        4 => "4",
        5 => "5",
        6 => "6",
        7 => "7",
        8 => "8",
        _ => "9",
    };
    proof {
        reveal_strlit("0");
        reveal_strlit("1");
        reveal_strlit("2");
        reveal_strlit("3");
        reveal_strlit("4");
        reveal_strlit("5");
        reveal_strlit("6");
        reveal_strlit("7");
        reveal_strlit("8");
        reveal_strlit("9");
        assert(r@ =~= seq![digit_char(d as nat)]);
    }
    r
}

/// Renders `n` in decimal, without padding.
pub fn u64_dec(n: u64) -> (r: String)
    ensures
        r@ == dec_seq(n as nat),
    decreases n,
{
    if n < 10 {
        digit_str(n).to_owned()
    } else {
        let mut r = u64_dec(n / 10);
        r.append(digit_str(n % 10));
        proof {
            assert(r@ =~= dec_seq(n as nat));
        }
        r
    }
}

/// Renders `n` zero-padded to two characters.
pub fn pad2(n: u64) -> (r: String)
    requires
        n < 100,
    ensures
        r@ == zero_pad(n as nat, 2),
{
    proof {
        lemma_dec_len_bounds(n as nat);
        lemma_dec_seq_len(n as nat);
    }
    let zeros: &'static str = if n < 10 {
        "0"
    } else {
        ""
    };
    let mut r = zeros.to_owned();
    let tail = u64_dec(n);
    r.append(tail.as_str());
    proof {
        reveal_strlit("0");
        reveal_strlit("");
        assert(r@ =~= zero_pad(n as nat, 2));
    }
    r
}

/// Renders `n` zero-padded to four characters.
pub fn pad4(n: u64) -> (r: String)
    requires
        n < 10000,
    ensures
        r@ == zero_pad(n as nat, 4),
{
    proof {
        lemma_dec_len_bounds(n as nat);
        lemma_dec_seq_len(n as nat);
    }
    let zeros: &'static str = if n < 10 {
        "000"
    } else if n < 100 {
        "00"
    } else if n < 1000 {
        "0"
    } else {
        ""
    };
    let mut r = zeros.to_owned();
    let tail = u64_dec(n);
    r.append(tail.as_str());
    proof {
        reveal_strlit("000");
        reveal_strlit("00");
        reveal_strlit("0");
        reveal_strlit("");
        assert(r@ =~= zero_pad(n as nat, 4));
    }
    r
}

/// Renders `n` zero-padded to six characters.
pub fn pad6(n: u64) -> (r: String)
    requires
        n < 1000000,
    ensures
        r@ == zero_pad(n as nat, 6),
{
    proof {
        lemma_dec_len_bounds(n as nat);
        lemma_dec_seq_len(n as nat);
    }
    let zeros: &'static str = if n < 10 {
        "00000"
    } else if n < 100 {
        "0000"
    } else if n < 1000 {
        "000"
    } else if n < 10000 {
        "00"
    } else if n < 100000 {
        "0"
    } else {
        ""
    };
    let mut r = zeros.to_owned();
    let tail = u64_dec(n);
    r.append(tail.as_str());
    proof {
        reveal_strlit("00000");
        reveal_strlit("0000");
        reveal_strlit("000");
        reveal_strlit("00");
        reveal_strlit("0");
        reveal_strlit("");
        assert(r@ =~= zero_pad(n as nat, 6));
    }
    r
}

/// A wall-clock instant in UTC with microsecond precision, held as plain
/// calendar fields.
#[derive(Clone, Copy, PartialEq, Eq, Structural, Debug)]
pub struct Timestamp {
    pub year: u64,
    pub month: u64,
    pub day: u64,
    pub hour: u64,
    pub minute: u64,
    pub second: u64,
    pub micros: u64,
}

impl Timestamp {
    /// Field ranges of a well-formed timestamp.
    pub open spec fn valid(self) -> bool {
        &&& self.year < 10000
        &&& 1 <= self.month <= 12
        &&& 1 <= self.day <= 31
        &&& self.hour < 24
        &&& self.minute < 60
        &&& self.second < 60
        &&& self.micros < 1000000
    }

    /// Mixed-radix encoding of the timestamp at second precision: two
    /// timestamps compare by key exactly as they compare chronologically.
    pub open spec fn spec_key(self) -> nat {
        ((((self.year as nat * 13 + self.month as nat) * 32 + self.day as nat) * 24
            + self.hour as nat) * 60 + self.minute as nat) * 60 + self.second as nat
    }

    /// Chronological strict order at second precision.
    pub open spec fn before(self, other: Timestamp) -> bool {
        if self.year != other.year {
            self.year < other.year
        } else if self.month != other.month {
            self.month < other.month
        } else if self.day != other.day {
            self.day < other.day
        } else if self.hour != other.hour {
            self.hour < other.hour
        } else if self.minute != other.minute {
            self.minute < other.minute
        } else {
            self.second < other.second
        }
    }

    /// Two timestamps fall on the same calendar day.
    pub open spec fn spec_same_day(self, other: Timestamp) -> bool {
        self.year == other.year && self.month == other.month && self.day == other.day
    }

    /// Checks whether `self` and `other` fall on the same calendar day.
    pub fn same_day(&self, other: &Timestamp) -> (r: bool)
        ensures
            r == self.spec_same_day(*other),
    {
        self.year == other.year && self.month == other.month && self.day == other.day
    }

    /// The second-precision key as a machine integer.
    pub fn key(&self) -> (r: u64)
        requires
            self.valid(),
        ensures
            r == self.spec_key(),
    {
        ((((self.year * 13 + self.month) * 32 + self.day) * 24 + self.hour) * 60 + self.minute)
            * 60 + self.second
    }

    /// ISO-8601 rendering with microsecond fraction and the literal UTC
    /// designator: `YYYY-MM-DDTHH:MM:SS.ffffffZ`.
    pub open spec fn spec_render(self) -> Seq<char> {
        zero_pad(self.year as nat, 4) + "-"@ + zero_pad(self.month as nat, 2) + "-"@ + zero_pad(
            self.day as nat,
            2,
        ) + "T"@ + zero_pad(self.hour as nat, 2) + ":"@ + zero_pad(self.minute as nat, 2) + ":"@
            + zero_pad(self.second as nat, 2) + "."@ + zero_pad(self.micros as nat, 6) + "Z"@
    }

    /// Renders the timestamp as `spec_render` states.
    pub fn render(&self) -> (r: String)
        requires
            self.valid(),
        ensures
            r@ == self.spec_render(),
    {
        let mut r = pad4(self.year);
        r.append("-");
        let p = pad2(self.month);
        r.append(p.as_str());
        r.append("-");
        let p = pad2(self.day);
        r.append(p.as_str());
        r.append("T");
        let p = pad2(self.hour);
        r.append(p.as_str());
        r.append(":");
        let p = pad2(self.minute);
        r.append(p.as_str());
        r.append(":");
        let p = pad2(self.second);
        r.append(p.as_str());
        r.append(".");
        let p = pad6(self.micros);
        r.append(p.as_str());
        r.append("Z");
        proof {
            assert(r@ =~= self.spec_render());
        }
        r
    }

    /// The timestamp suffix used in rotated-file names:
    /// `YYYY-MM-DD_HH-MM-SS`. Lexical order of suffixes equals
    /// chronological order because every field is zero-padded.
    pub open spec fn spec_file_suffix(self) -> Seq<char> {
        zero_pad(self.year as nat, 4) + "-"@ + zero_pad(self.month as nat, 2) + "-"@ + zero_pad(
            self.day as nat,
            2,
        ) + "_"@ + zero_pad(self.hour as nat, 2) + "-"@ + zero_pad(self.minute as nat, 2) + "-"@
            + zero_pad(self.second as nat, 2)
    }

    /// Renders the rotated-file name suffix as `spec_file_suffix` states.
    pub fn file_suffix(&self) -> (r: String)
        requires
            self.valid(),
        ensures
            r@ == self.spec_file_suffix(),
    {
        let mut r = pad4(self.year);
        r.append("-");
        let p = pad2(self.month);
        r.append(p.as_str());
        r.append("-");
        let p = pad2(self.day);
        r.append(p.as_str());
        r.append("_");
        let p = pad2(self.hour);
        r.append(p.as_str());
        r.append("-");
        let p = pad2(self.minute);
        r.append(p.as_str());
        r.append("-");
        let p = pad2(self.second);
        r.append(p.as_str());
        proof {
            assert(r@ =~= self.spec_file_suffix());
        }
        r
    }
}

/// One step of mixed-radix comparison: a strictly smaller high part beats
/// any in-range low part.
proof fn lemma_mixed_step(x1: nat, x2: nat, r1: nat, r2: nat, base: nat)
    requires
        x1 < x2,
        r1 < base,
    ensures
        x1 * base + r1 < x2 * base + r2,
{
    assert(x1 * base + r1 < x2 * base + r2) by (nonlinear_arith)
        requires
            x1 < x2,
            r1 < base,
    ;
}

/// Chronological order of valid timestamps is reflected by their keys:
/// an earlier instant has a strictly smaller key.
pub proof fn lemma_key_increases(a: Timestamp, b: Timestamp)
    requires
        a.valid(),
        b.valid(),
        a.before(b),
    ensures
        a.spec_key() < b.spec_key(),
{
    let a1 = a.year as nat * 13 + a.month as nat;
    let b1 = b.year as nat * 13 + b.month as nat;
    let a2 = a1 * 32 + a.day as nat;
    let b2 = b1 * 32 + b.day as nat;
    let a3 = a2 * 24 + a.hour as nat;
    let b3 = b2 * 24 + b.hour as nat;
    let a4 = a3 * 60 + a.minute as nat;
    let b4 = b3 * 60 + b.minute as nat;
    if a.year < b.year {
        assert(a1 < b1);
    }
    if a1 < b1 {
        lemma_mixed_step(a1, b1, a.day as nat, b.day as nat, 32);
    }
    if a2 < b2 {
        lemma_mixed_step(a2, b2, a.hour as nat, b.hour as nat, 24);
    }
    if a3 < b3 {
        lemma_mixed_step(a3, b3, a.minute as nat, b.minute as nat, 60);
    }
    if a4 < b4 {
        lemma_mixed_step(a4, b4, a.second as nat, b.second as nat, 60);
    }
}

} // verus!
