//! Construction of the log file path: a sortable local-time stamp rendered
//! with zero-padded decimal fields, placed under the configured directory as
//! `{dir}/log_{MM}-{DD}-{YYYY}_{HH}-{MM}-{SS}.txt`.

use vstd::prelude::*;
use vstd::string::StringExecFns;
use vstd::arithmetic::div_mod::*;
use chrono::Datelike;
use chrono::Timelike;

verus! {

/// The decimal digit character for `d` in `0..=9`.
pub open spec fn digit_char(d: int) -> char {
    if d == 0 {
        '0'
    } else if d == 1 {
        '1'
    } else if d == 2 {
        '2'
    } else if d == 3 {
        '3'
    } else if d == 4 {
        '4'
    } else if d == 5 {
        '5'
    } else if d == 6 {
        '6'
    } else if d == 7 {
        '7'
    } else if d == 8 {
        '8'
    } else {
        '9'
    }
}

/// The usual decimal rendering of `n`, most significant digit first, with no
/// leading zeros (a single `'0'` for zero itself).
pub open spec fn dec_seq(n: nat) -> Seq<char>
    decreases n,
{
    if n < 10 {
        seq![digit_char(n as int)]
    } else {
        dec_seq(n / 10).push(digit_char((n % 10) as int))
    }
}

/// `k` zero characters.
pub open spec fn zeros(k: nat) -> Seq<char> {
    Seq::new(k, |i: int| '0')
}

/// The decimal rendering of `n`, left-padded with zeros to at least `w`
/// characters.
pub open spec fn padded_seq(n: nat, w: nat) -> Seq<char> {
    if dec_seq(n).len() >= w {
        dec_seq(n)
    } else {
        zeros((w - dec_seq(n).len()) as nat) + dec_seq(n)
    }
}

/// A local wall-clock reading, split into plain calendar fields.
#[derive(Clone, Copy, Debug, PartialEq, Eq, Structural)]
pub struct Timestamp {
    pub year: i32,
    pub month: u8,
    pub day: u8,
    pub hour: u8,
    pub minute: u8,
    pub second: u8,
}

impl Timestamp {
    /// Field ranges of a calendar reading. The year is unconstrained: the
    /// clock source reports it as a plain signed number.
    pub open spec fn wf(self) -> bool {
        &&& 1 <= self.month <= 12
        &&& 1 <= self.day <= 31
        &&& self.hour <= 23
        &&& self.minute <= 59
        &&& self.second <= 59
    }
}

/// The year rendered to at least four digits: zero-padded within the
/// common-era four-digit range, and carrying an explicit sign outside it.
pub open spec fn year_seq(y: int) -> Seq<char> {
    if y < 0 {
        seq!['-'] + padded_seq((-y) as nat, 4)
    } else if y > 9999 {
        seq!['+'] + padded_seq(y as nat, 4)
    } else {
        padded_seq(y as nat, 4)
    }
}

/// The stamp portion of a log path: `MM-DD-YYYY_HH-MM-SS`.
pub open spec fn stamp_seq(ts: Timestamp) -> Seq<char> {
    padded_seq(ts.month as nat, 2) + seq!['-'] + padded_seq(ts.day as nat, 2) + seq!['-']
        + year_seq(ts.year as int) + seq!['_'] + padded_seq(ts.hour as nat, 2) + seq!['-']
        + padded_seq(ts.minute as nat, 2) + seq!['-'] + padded_seq(ts.second as nat, 2)
}

/// The full log path under `dir` for the clock reading `ts`.
pub open spec fn log_path_spec(dir: Seq<char>, ts: Timestamp) -> Seq<char> {
    dir + seq!['/', 'l', 'o', 'g', '_'] + stamp_seq(ts) + seq!['.', 't', 'x', 't']
}

/// Relies on chrono's `Local::now` and the `Datelike`/`Timelike` accessors,
/// whose documentation fixes the ranges: month 1..=12, day 1..=31, hour 0..=23,
/// minute 0..=59, second 0..=59 (leap seconds are carried in the nanosecond
/// field, not here).
#[verifier::external_body]
fn local_now() -> (r: Timestamp)
    ensures
        r.wf(),
{
    let now = chrono::Local::now();
    Timestamp {
        year: now.year(),
        month: now.month() as u8,
        day: now.day() as u8,
        hour: now.hour() as u8,
        minute: now.minute() as u8,
        second: now.second() as u8,
    }
}

fn digit_str(d: u8) -> (r: &'static str)
    requires
        d < 10,
    ensures
        r@ == seq![digit_char(d as int)],
{
    proof {
        reveal_strlit("0");
        reveal_strlit("1");
        reveal_strlit("2");
        reveal_strlit("3");
        reveal_strlit("4");
        reveal_strlit("5");
        reveal_strlit("6");
        reveal_strlit("7");
        reveal_strlit("8");
        reveal_strlit("9");
    }
    let r: &'static str = match d {
        0 => "0",
        1 => "1",
        2 => "2",
        3 => "3",
        4 => "4",
        5 => "5",
        6 => "6",
        7 => "7",
        8 => "8",
        _ => "9",
    };
    proof {
        assert(r@ =~= seq![digit_char(d as int)]);
    }
    r
}

/// The digit characters of `digs` read back to front.
pub open spec fn rev_digit_chars(digs: Seq<u8>) -> Seq<char> {
    Seq::new(digs.len(), |i: int| digit_char(digs[digs.len() - 1 - i] as int))
}

/// Render `n` in decimal, left-padded with zeros to at least `width`
/// characters.
pub fn decimal_padded(n: u32, width: usize) -> (r: String)
    ensures
        r@ == padded_seq(n as nat, width as nat),
{
    let mut digs: Vec<u8> = Vec::new();
    let mut m: u32 = n;
    while m >= 10
        invariant
            dec_seq(n as nat) =~= dec_seq(m as nat) + rev_digit_chars(digs@),
            forall|i: int| 0 <= i < digs@.len() ==> digs@[i] < 10,
        decreases m,
    {
        let ghost pre = digs@;
        let d: u8 = (m % 10) as u8;
        digs.push(d);
        proof {
            assert(rev_digit_chars(pre.push(d)) =~= seq![digit_char(d as int)]
                + rev_digit_chars(pre));
            assert(dec_seq(m as nat) =~= dec_seq((m / 10) as nat) + seq![
                digit_char((m % 10) as int),
            ]);
            assert(dec_seq((m / 10) as nat) + rev_digit_chars(pre.push(d)) =~= dec_seq(m as nat)
                + rev_digit_chars(pre));
        }
        m = m / 10;
    }
    let ghost pre = digs@;
    digs.push(m as u8);
    proof {
        assert(rev_digit_chars(pre.push(m as u8)) =~= seq![digit_char(m as int)]
            + rev_digit_chars(pre));
        assert(dec_seq(n as nat) =~= rev_digit_chars(digs@));
    }
    let dlen = digs.len();
    let pad: usize = if width > dlen {
        width - dlen
    } else {
        0
    };
    let mut s = String::new();
    let mut z: usize = 0;
    while z < pad
        invariant
            z <= pad,
            s@ =~= zeros(z as nat),
        decreases pad - z,
    {
        proof {
            reveal_strlit("0");
        }
        s.append("0");
        z = z + 1;
        proof {
            assert(s@ =~= zeros(z as nat));
        }
    }
    let mut j: usize = 0;
    while j < digs.len()
        invariant
            j <= digs@.len(),
            dec_seq(n as nat) =~= rev_digit_chars(digs@),
            forall|i: int| 0 <= i < digs@.len() ==> digs@[i] < 10,
            s@ =~= zeros(pad as nat) + rev_digit_chars(digs@).take(j as int),
        decreases digs@.len() - j,
    {
        let idx = digs.len() - 1 - j;
        let piece = digit_str(digs[idx]);
        s.append(piece);
        j = j + 1;
        proof {
            assert(rev_digit_chars(digs@).take(j as int) =~= rev_digit_chars(digs@).take(
                j - 1,
            ).push(rev_digit_chars(digs@)[j - 1]));
            assert(s@ =~= zeros(pad as nat) + rev_digit_chars(digs@).take(j as int));
        }
    }
    proof {
        assert(rev_digit_chars(digs@).take(digs@.len() as int) =~= rev_digit_chars(digs@));
        assert(s@ =~= zeros(pad as nat) + dec_seq(n as nat));
        assert(dec_seq(n as nat).len() == digs@.len());
        assert(s@ =~= padded_seq(n as nat, width as nat));
    }
    s
}

/// Build the log path under `log_dir` for the clock reading `ts`: the path is
/// a pure function of its two arguments.
#[verifier::rlimit(80)]
pub fn log_filename_at(log_dir: &str, ts: &Timestamp) -> (r: String)
    ensures
        r@ == log_path_spec(log_dir@, *ts),
{
    proof {
        reveal_strlit("/log_");
        reveal_strlit("-");
        reveal_strlit("_");
        reveal_strlit(".txt");
    }
    let mut s = log_dir.to_owned();
    s.append("/log_");
    proof {
        assert(s@ =~= log_dir@ + seq!['/', 'l', 'o', 'g', '_']);
    }
    let month_part = decimal_padded(ts.month as u32, 2);
    s.append(month_part.as_str());
    s.append("-");
    let day_part = decimal_padded(ts.day as u32, 2);
    s.append(day_part.as_str());
    s.append("-");
    let y = ts.year;
    if y < 0 {
        s.append("-");
        let mag: i64 = -(y as i64);
        let year_part = decimal_padded(mag as u32, 4);
        s.append(year_part.as_str());
    } else if y > 9999 {
        proof {
            reveal_strlit("+");
        }
        s.append("+");
        let year_part = decimal_padded(y as u32, 4);
        s.append(year_part.as_str());
    } else {
        let year_part = decimal_padded(y as u32, 4);
        s.append(year_part.as_str());
    }
    proof {
        assert(s@ =~= log_dir@ + seq!['/', 'l', 'o', 'g', '_'] + padded_seq(ts.month as nat, 2)
            + seq!['-'] + padded_seq(ts.day as nat, 2) + seq!['-'] + year_seq(ts.year as int));
    }
    s.append("_");
    let hour_part = decimal_padded(ts.hour as u32, 2);
    s.append(hour_part.as_str());
    s.append("-");
    let minute_part = decimal_padded(ts.minute as u32, 2);
    s.append(minute_part.as_str());
    proof {
        assert(s@ =~= log_dir@ + seq!['/', 'l', 'o', 'g', '_'] + padded_seq(ts.month as nat, 2)
            + seq!['-'] + padded_seq(ts.day as nat, 2) + seq!['-'] + year_seq(ts.year as int)
            + seq!['_'] + padded_seq(ts.hour as nat, 2) + seq!['-'] + padded_seq(
            ts.minute as nat,
            2,
        ));
    }
    s.append("-");
    let second_part = decimal_padded(ts.second as u32, 2);
    s.append(second_part.as_str());
    s.append(".txt");
    proof {
        assert(s@ =~= log_path_spec(log_dir@, *ts));
    }
    s
}

proof fn lemma_dec_seq_len(n: nat)
    ensures
        1 <= dec_seq(n).len(),
        n < 10 ==> dec_seq(n).len() == 1,
        n < 100 ==> dec_seq(n).len() <= 2,
        n < 1000 ==> dec_seq(n).len() <= 3,
        n < 10000 ==> dec_seq(n).len() <= 4,
    decreases n,
{
    if n >= 10 {
        lemma_dec_seq_len(n / 10);
    }
}

proof fn lemma_padded_len(n: nat, w: nat)
    ensures
        padded_seq(n, w).len() >= w,
        padded_seq(n, w).len() >= dec_seq(n).len(),
        dec_seq(n).len() <= w ==> padded_seq(n, w).len() == w,
{
    lemma_dec_seq_len(n);
}

proof fn lemma_padded_step(n: nat, w: nat)
    requires
        w >= 2 || (w >= 1 && n >= 10),
    ensures
        padded_seq(n, w) == padded_seq(n / 10, (w - 1) as nat).push(
            digit_char((n % 10) as int),
        ),
{
    lemma_dec_seq_len(n);
    lemma_dec_seq_len(n / 10);
    if n >= 10 {
        assert(dec_seq(n) == dec_seq(n / 10).push(digit_char((n % 10) as int)));
        assert(padded_seq(n, w) =~= padded_seq(n / 10, (w - 1) as nat).push(
            digit_char((n % 10) as int),
        ));
    } else {
        assert(n / 10 == 0 && dec_seq(0) == seq![digit_char(0)]);
        assert(padded_seq(n, w) =~= padded_seq(n / 10, (w - 1) as nat).push(
            digit_char((n % 10) as int),
        ));
    }
}

proof fn lemma_padded2(n: nat)
    requires
        n < 100,
    ensures
        padded_seq(n, 2) == seq![digit_char((n / 10) as int), digit_char((n % 10) as int)],
{
    lemma_padded_step(n, 2);
    lemma_dec_seq_len(n / 10);
    assert(padded_seq(n / 10, 1) == dec_seq(n / 10));
    assert(padded_seq(n, 2) =~= seq![digit_char((n / 10) as int), digit_char((n % 10) as int)]);
}

proof fn lemma_padded4(n: nat)
    requires
        n < 10000,
    ensures
        padded_seq(n, 4) == seq![
            digit_char((n / 1000) as int),
            digit_char(((n / 100) % 10) as int),
            digit_char(((n / 10) % 10) as int),
            digit_char((n % 10) as int),
        ],
{
    lemma_padded_step(n, 4);
    lemma_padded_step(n / 10, 3);
    lemma_padded_step(n / 100, 2);
    lemma_div_denominator(n as int, 10, 10);
    lemma_div_denominator(n as int, 100, 10);
    assert((n / 10) / 10 == n / 100);
    assert((n / 100) / 10 == n / 1000);
    lemma_dec_seq_len(n / 1000);
    assert(padded_seq(n / 1000, 1) == dec_seq(n / 1000));
    assert(padded_seq(n, 4) =~= seq![
        digit_char((n / 1000) as int),
        digit_char(((n / 100) % 10) as int),
        digit_char(((n / 10) % 10) as int),
        digit_char((n % 10) as int),
    ]);
}

proof fn lemma_digit_char_injective(a: int, b: int)
    requires
        0 <= a < 10,
        0 <= b < 10,
        digit_char(a) == digit_char(b),
    ensures
        a == b,
{
}

proof fn lemma_two_digit_value(n: nat, m: nat)
    requires
        n < 100,
        m < 100,
        padded_seq(n, 2) == padded_seq(m, 2),
    ensures
        n == m,
{
    lemma_padded2(n);
    lemma_padded2(m);
    assert(padded_seq(n, 2)[0] == padded_seq(m, 2)[0]);
    assert(padded_seq(n, 2)[1] == padded_seq(m, 2)[1]);
    lemma_digit_char_injective((n / 10) as int, (m / 10) as int);
    lemma_digit_char_injective((n % 10) as int, (m % 10) as int);
    assert(n == 10 * (n / 10) + n % 10);
    assert(m == 10 * (m / 10) + m % 10);
}

proof fn lemma_four_digit_value(n: nat, m: nat)
    requires
        n < 10000,
        m < 10000,
        padded_seq(n, 4) == padded_seq(m, 4),
    ensures
        n == m,
{
    lemma_padded4(n);
    lemma_padded4(m);
    assert(padded_seq(n, 4)[0] == padded_seq(m, 4)[0]);
    assert(padded_seq(n, 4)[1] == padded_seq(m, 4)[1]);
    assert(padded_seq(n, 4)[2] == padded_seq(m, 4)[2]);
    assert(padded_seq(n, 4)[3] == padded_seq(m, 4)[3]);
    lemma_digit_char_injective((n / 1000) as int, (m / 1000) as int);
    lemma_digit_char_injective(((n / 100) % 10) as int, ((m / 100) % 10) as int);
    lemma_digit_char_injective(((n / 10) % 10) as int, ((m / 10) % 10) as int);
    lemma_digit_char_injective((n % 10) as int, (m % 10) as int);
    lemma_fundamental_div_mod(n as int, 10);
    lemma_fundamental_div_mod(n as int, 100);
    lemma_fundamental_div_mod(n as int, 1000);
    lemma_fundamental_div_mod(m as int, 10);
    lemma_fundamental_div_mod(m as int, 100);
    lemma_fundamental_div_mod(m as int, 1000);
    assert(n == m) by (nonlinear_arith)
        requires
            n < 10000,
            m < 10000,
            n / 1000 == m / 1000,
            (n / 100) % 10 == (m / 100) % 10,
            (n / 10) % 10 == (m / 10) % 10,
            n % 10 == m % 10,
    ;
}

proof fn lemma_stamp_components(ts: Timestamp)
    requires
        ts.wf(),
        0 <= ts.year <= 9999,
    ensures
        stamp_seq(ts).len() == 19,
        stamp_seq(ts).subrange(0, 2) == padded_seq(ts.month as nat, 2),
        stamp_seq(ts).subrange(3, 5) == padded_seq(ts.day as nat, 2),
        stamp_seq(ts).subrange(6, 10) == padded_seq(ts.year as nat, 4),
        stamp_seq(ts).subrange(11, 13) == padded_seq(ts.hour as nat, 2),
        stamp_seq(ts).subrange(14, 16) == padded_seq(ts.minute as nat, 2),
        stamp_seq(ts).subrange(17, 19) == padded_seq(ts.second as nat, 2),
{
    lemma_dec_seq_len(ts.month as nat);
    lemma_dec_seq_len(ts.day as nat);
    lemma_dec_seq_len(ts.year as nat);
    lemma_dec_seq_len(ts.hour as nat);
    lemma_dec_seq_len(ts.minute as nat);
    lemma_dec_seq_len(ts.second as nat);
    lemma_padded_len(ts.month as nat, 2);
    lemma_padded_len(ts.day as nat, 2);
    lemma_padded_len(ts.year as nat, 4);
    lemma_padded_len(ts.hour as nat, 2);
    lemma_padded_len(ts.minute as nat, 2);
    lemma_padded_len(ts.second as nat, 2);
    assert(stamp_seq(ts).subrange(0, 2) =~= padded_seq(ts.month as nat, 2));
    assert(stamp_seq(ts).subrange(3, 5) =~= padded_seq(ts.day as nat, 2));
    assert(stamp_seq(ts).subrange(6, 10) =~= padded_seq(ts.year as nat, 4));
    assert(stamp_seq(ts).subrange(11, 13) =~= padded_seq(ts.hour as nat, 2));
    assert(stamp_seq(ts).subrange(14, 16) =~= padded_seq(ts.minute as nat, 2));
    assert(stamp_seq(ts).subrange(17, 19) =~= padded_seq(ts.second as nat, 2));
}

/// Law: within one directory, two well-formed clock readings with four-digit
/// common-era years produce the same log path exactly when they name the same
/// calendar second — the second-level stamp granularity is the only source of
/// path collisions.
pub proof fn lemma_log_path_collision(dir: Seq<char>, ts1: Timestamp, ts2: Timestamp)
    requires
        ts1.wf(),
        ts2.wf(),
        0 <= ts1.year <= 9999,
        0 <= ts2.year <= 9999,
    ensures
        log_path_spec(dir, ts1) == log_path_spec(dir, ts2) <==> ts1 == ts2,
{
    lemma_stamp_components(ts1);
    lemma_stamp_components(ts2);
    if log_path_spec(dir, ts1) == log_path_spec(dir, ts2) {
        let n = dir.len() as int;
        assert(stamp_seq(ts1) =~= log_path_spec(dir, ts1).subrange(n + 5, n + 24));
        assert(stamp_seq(ts2) =~= log_path_spec(dir, ts2).subrange(n + 5, n + 24));
        assert(stamp_seq(ts1) == stamp_seq(ts2));
        lemma_two_digit_value(ts1.month as nat, ts2.month as nat);
        lemma_two_digit_value(ts1.day as nat, ts2.day as nat);
        lemma_four_digit_value(ts1.year as nat, ts2.year as nat);
        lemma_two_digit_value(ts1.hour as nat, ts2.hour as nat);
        lemma_two_digit_value(ts1.minute as nat, ts2.minute as nat);
        lemma_two_digit_value(ts1.second as nat, ts2.second as nat);
        assert(ts1 == ts2);
    }
}

/// Generate a log filename under `log_dir` from the current local wall-clock
/// time. The result is the deterministic path for whatever well-formed reading
/// the clock produced.
pub fn create_log_filename(log_dir: &str) -> (r: String)
    ensures
        exists|ts: Timestamp| ts.wf() && r@ == #[trigger] log_path_spec(log_dir@, ts),
{
    let now = local_now();
    let r = log_filename_at(log_dir, &now);
    proof {
        assert(now.wf() && r@ == log_path_spec(log_dir@, now));
    }
    r
}

} // verus!
