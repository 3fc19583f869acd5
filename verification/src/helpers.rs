//! Formatting utilities: byte counts, uptime and runtime strings, and
//! rectangle-centering geometry.
//!
//! Every displayed string is specified as a `Seq<char>` built from digit
//! characters, so each public function pins down the exact text it returns.

use vstd::prelude::*;
use vstd::arithmetic::div_mod::{lemma_div_is_ordered, lemma_div_is_ordered_by_denominator};

verus! {

pub const KB: u64 = 1024;

pub const MB: u64 = 1024 * 1024;

pub const GB: u64 = 1024 * 1024 * 1024;

pub const TB: u64 = 1024 * 1024 * 1024 * 1024;

pub const SECONDS_PER_DAY: u64 = 86400;

pub const SECONDS_PER_HOUR: u64 = 3600;

pub const SECONDS_PER_MINUTE: u64 = 60;

/// The character for a single decimal digit.
pub open spec fn digit_char(d: nat) -> char {
    if d == 0 {
        '0'
    } else if d == 1 {
        '1'
    } else if d == 2 {
        '2'
    } else if d == 3 {
        '3'
    } else if d == 4 {
        '4'
    } else if d == 5 {
        '5'
    } else if d == 6 {
        '6'
    } else if d == 7 {
        '7'
    } else if d == 8 {
        '8'
    } else {
        '9'
    }
}

/// The decimal representation of `n`, most significant digit first,
/// with no leading zeros (a lone `'0'` for zero).
pub open spec fn spec_digits(n: nat) -> Seq<char>
    decreases n,
{
    if n < 10 {
        seq![digit_char(n)]
    } else {
        spec_digits(n / 10).push(digit_char(n % 10))
    }
}

/// The decimal representation of `n`, left-padded with `'0'` to at least
/// two characters (how a two-digit zero-padded field prints).
pub open spec fn spec_pad2(n: nat) -> Seq<char> {
    if n < 10 {
        seq!['0'] + spec_digits(n)
    } else {
        spec_digits(n)
    }
}

/// A run of `n` spaces.
pub open spec fn spec_spaces(n: nat) -> Seq<char> {
    Seq::new(n, |i: int| ' ')
}

/// `s` left-padded with spaces to at least `width` characters.
pub open spec fn spec_pad_left(s: Seq<char>, width: nat) -> Seq<char> {
    if s.len() >= width {
        s
    } else {
        spec_spaces((width - s.len()) as nat) + s
    }
}

/// `s` right-padded with spaces to at least `width` characters.
pub open spec fn spec_pad_right(s: Seq<char>, width: nat) -> Seq<char> {
    if s.len() >= width {
        s
    } else {
        s + spec_spaces((width - s.len()) as nat)
    }
}

/// Relies on std's `String::push`: appends the given `char` to the end of
/// the string.
#[verifier::external_body]
fn push_char(s: &mut String, c: char)
    ensures
        final(s)@ == old(s)@.push(c),
{
    s.push(c);
}

/// Builds the `String` whose characters are exactly `v`.
pub fn chars_to_string(v: &Vec<char>) -> (s: String)
    ensures
        s@ == v@,
{
    let mut s = String::new();
    let mut i: usize = 0;
    while i < v.len()
        invariant
            i <= v.len(),
            s@ == v@.take(i as int),
        decreases v.len() - i,
    {
        push_char(&mut s, v[i]);
        i = i + 1;
        assert(s@ =~= v@.take(i as int));
    }
    proof {
        assert(v@.take(v.len() as int) =~= v@);
    }
    s
}

pub fn digit_to_char(d: u64) -> (c: char)
    requires
        d < 10,
    ensures
        c == digit_char(d as nat),
{
    if d == 0 {
        '0'
    } else if d == 1 {
        '1'
    } else if d == 2 {
        '2'
    } else if d == 3 {
        '3'
    } else if d == 4 {
        '4'
    } else if d == 5 {
        '5'
    } else if d == 6 {
        '6'
    } else if d == 7 {
        '7'
    } else if d == 8 {
        '8'
    } else {
        '9'
    }
}

/// Appends the decimal digits of `n` to `out`.
pub fn push_digits(out: &mut Vec<char>, n: u64)
    ensures
        final(out)@ == old(out)@ + spec_digits(n as nat),
    decreases n,
{
    if n < 10 {
        out.push(digit_to_char(n));
        assert(out@ =~= old(out)@ + spec_digits(n as nat));
    } else {
        push_digits(out, n / 10);
        out.push(digit_to_char(n % 10));
        assert(out@ =~= old(out)@ + spec_digits(n as nat));
    }
}

/// Appends `n` zero-padded to at least two digits.
pub fn push_pad2(out: &mut Vec<char>, n: u64)
    ensures
        final(out)@ == old(out)@ + spec_pad2(n as nat),
{
    if n < 10 {
        out.push('0');
    }
    push_digits(out, n);
    assert(out@ =~= old(out)@ + spec_pad2(n as nat));
}

/// The `HH:MM:SS` part shared by uptime strings.
pub open spec fn spec_hms(seconds: nat) -> Seq<char> {
    let hours = (seconds % 86400) / 3600;
    let minutes = (seconds % 3600) / 60;
    let secs = seconds % 60;
    spec_pad2(hours) + seq![':'] + spec_pad2(minutes) + seq![':'] + spec_pad2(secs)
}

/// The uptime string: `"<days> days, HH:MM:SS"` when at least one full day
/// has passed, plain `"HH:MM:SS"` otherwise.
pub open spec fn spec_format_uptime(seconds: nat) -> Seq<char> {
    let days = seconds / 86400;
    if days > 0 {
        spec_digits(days) + seq![' ', 'd', 'a', 'y', 's', ',', ' '] + spec_hms(seconds)
    } else {
        spec_hms(seconds)
    }
}

/// Appends the uptime string for `uptime_seconds`.
pub fn push_format_uptime(out: &mut Vec<char>, uptime_seconds: u64)
    ensures
        final(out)@ == old(out)@ + spec_format_uptime(uptime_seconds as nat),
{
    let days = uptime_seconds / SECONDS_PER_DAY;
    let hours = (uptime_seconds % SECONDS_PER_DAY) / SECONDS_PER_HOUR;
    let minutes = (uptime_seconds % SECONDS_PER_HOUR) / SECONDS_PER_MINUTE;
    let seconds = uptime_seconds % SECONDS_PER_MINUTE;

    if days > 0 {
        push_digits(out, days);
        out.push(' ');
        out.push('d');
        out.push('a');
        out.push('y');
        out.push('s');
        out.push(',');
        out.push(' ');
    }
    push_pad2(out, hours);
    out.push(':');
    push_pad2(out, minutes);
    out.push(':');
    push_pad2(out, seconds);
    assert(out@ =~= old(out)@ + spec_format_uptime(uptime_seconds as nat));
}

/// Format an uptime in seconds as `"<days> days, HH:MM:SS"` or `"HH:MM:SS"`.
pub fn format_uptime(uptime_seconds: u64) -> (r: String)
    ensures
        r@ == spec_format_uptime(uptime_seconds as nat),
{
    let mut out: Vec<char> = Vec::new();
    push_format_uptime(&mut out, uptime_seconds);
    assert(out@ =~= spec_format_uptime(uptime_seconds as nat));
    chars_to_string(&out)
}

/// The runtime string `HH:MM.SS`; the hour field widens past two digits
/// rather than rolling over into days.
pub open spec fn spec_format_runtime(seconds: nat) -> Seq<char> {
    let hours = seconds / 3600;
    let minutes = (seconds % 3600) / 60;
    let secs = seconds % 60;
    spec_pad2(hours) + seq![':'] + spec_pad2(minutes) + seq!['.'] + spec_pad2(secs)
}

/// Format a process runtime in seconds as `"HH:MM.SS"`.
pub fn format_runtime(runtime_seconds: u64) -> (r: String)
    ensures
        r@ == spec_format_runtime(runtime_seconds as nat),
{
    let hours = runtime_seconds / SECONDS_PER_HOUR;
    let minutes = (runtime_seconds % SECONDS_PER_HOUR) / SECONDS_PER_MINUTE;
    let seconds = runtime_seconds % SECONDS_PER_MINUTE;

    let mut out: Vec<char> = Vec::new();
    push_pad2(&mut out, hours);
    out.push(':');
    push_pad2(&mut out, minutes);
    out.push('.');
    push_pad2(&mut out, seconds);
    assert(out@ =~= spec_format_runtime(runtime_seconds as nat));
    chars_to_string(&out)
}

/// `n` scaled by `unit` in tenths, rounded to the nearest tenth
/// (halves round up): the magnitude a one-decimal display shows.
pub open spec fn spec_scaled_tenths(n: nat, unit: nat) -> nat
    recommends
        unit > 0,
{
    (10 * n + unit / 2) / unit
}

/// A one-decimal rendering of `n` in the given unit: `"<int>.<tenth>"`.
pub open spec fn spec_one_decimal(n: nat, unit: nat) -> Seq<char>
    recommends
        unit > 0,
{
    let t = spec_scaled_tenths(n, unit);
    spec_digits(t / 10) + seq!['.', digit_char(t % 10)]
}

/// The unit divisor `format_bytes` selects for `n`: the largest among
/// KB/MB/GB/TB that `n` reaches, and KB below one KB.
pub open spec fn spec_byte_unit(n: nat) -> nat {
    if n >= TB {
        TB as nat
    } else if n >= GB {
        GB as nat
    } else if n >= MB {
        MB as nat
    } else {
        KB as nat
    }
}

/// The unit suffix `format_bytes` prints for `n`.
pub open spec fn spec_byte_unit_chars(n: nat) -> Seq<char> {
    if n >= TB {
        seq!['T', 'B']
    } else if n >= GB {
        seq!['G', 'B']
    } else if n >= MB {
        seq!['M', 'B']
    } else {
        seq!['K', 'B']
    }
}

/// The human-readable byte string: whole-number KB below one KB, otherwise
/// one decimal in the largest unit the value reaches.
pub open spec fn spec_format_bytes(n: nat) -> Seq<char> {
    if n < KB {
        spec_digits(n) + seq!['K', 'B']
    } else {
        spec_one_decimal(n, spec_byte_unit(n)) + spec_byte_unit_chars(n)
    }
}

/// Rounded tenths of `n / unit`, computed without overflow.
fn scaled_tenths(n: u64, unit: u64) -> (t: u64)
    requires
        unit >= 1024,
    ensures
        t as nat == spec_scaled_tenths(n as nat, unit as nat),
{
    let wide: u128 = (10 * (n as u128) + (unit as u128) / 2) / (unit as u128);
    proof {
        let x = 10 * (n as int) + (unit as int) / 2;
        lemma_div_is_ordered_by_denominator(x, 1024, unit as int);
        lemma_div_is_ordered(x, 10 * 0xffff_ffff_ffff_ffffu64 as int + 0x8000_0000_0000_0000u64 as int, 1024);
        assert(wide <= u64::MAX);
    }
    wide as u64
}

fn push_one_decimal(out: &mut Vec<char>, n: u64, unit: u64)
    requires
        unit >= 1024,
    ensures
        final(out)@ == old(out)@ + spec_one_decimal(n as nat, unit as nat),
{
    let t = scaled_tenths(n, unit);
    push_digits(out, t / 10);
    out.push('.');
    out.push(digit_to_char(t % 10));
    assert(out@ =~= old(out)@ + spec_one_decimal(n as nat, unit as nat));
}

/// Appends the human-readable byte string for `bytes`.
pub fn push_format_bytes(out: &mut Vec<char>, bytes: u64)
    ensures
        final(out)@ == old(out)@ + spec_format_bytes(bytes as nat),
{
    if bytes >= TB {
        push_one_decimal(out, bytes, TB);
        out.push('T');
        out.push('B');
    } else if bytes >= GB {
        push_one_decimal(out, bytes, GB);
        out.push('G');
        out.push('B');
    } else if bytes >= MB {
        push_one_decimal(out, bytes, MB);
        out.push('M');
        out.push('B');
    } else if bytes >= KB {
        push_one_decimal(out, bytes, KB);
        out.push('K');
        out.push('B');
    } else {
        push_digits(out, bytes);
        out.push('K');
        out.push('B');
    }
    assert(out@ =~= old(out)@ + spec_format_bytes(bytes as nat));
}

/// Format a byte count with the largest fitting unit among KB/MB/GB/TB,
/// one decimal place; values below one KB print as whole-number KB.
pub fn format_bytes(bytes: u64) -> (r: String)
    ensures
        r@ == spec_format_bytes(bytes as nat),
{
    let mut out: Vec<char> = Vec::new();
    push_format_bytes(&mut out, bytes);
    assert(out@ =~= spec_format_bytes(bytes as nat));
    chars_to_string(&out)
}

/// Law: below one KB the byte string is the raw count with a `"KB"` suffix
/// and no decimal point.
pub proof fn lemma_format_bytes_small(n: nat)
    requires
        n < 1024,
    ensures
        spec_format_bytes(n) == spec_digits(n) + seq!['K', 'B'],
{
}

/// Law: from one KB up, the byte string is a one-decimal magnitude in the
/// bracket's unit followed by that unit's two-letter suffix.
pub proof fn lemma_format_bytes_one_decimal(n: nat)
    requires
        n >= 1024,
    ensures
        spec_format_bytes(n) == spec_digits(spec_scaled_tenths(n, spec_byte_unit(n)) / 10)
            + seq!['.', digit_char(spec_scaled_tenths(n, spec_byte_unit(n)) % 10)]
            + spec_byte_unit_chars(n),
{
    assert(spec_format_bytes(n) =~= spec_digits(spec_scaled_tenths(n, spec_byte_unit(n)) / 10)
        + seq!['.', digit_char(spec_scaled_tenths(n, spec_byte_unit(n)) % 10)]
        + spec_byte_unit_chars(n));
}

/// Law: within one unit bracket, the displayed magnitude never decreases
/// as the byte count grows.
pub proof fn lemma_format_bytes_monotone(a: nat, b: nat, unit: nat)
    requires
        unit > 0,
        a <= b,
    ensures
        spec_scaled_tenths(a, unit) <= spec_scaled_tenths(b, unit),
{
    lemma_div_is_ordered(10 * a as int + unit as int / 2, 10 * b as int + unit as int / 2, unit as int);
}

/// A terminal region: position and size in character cells.
#[derive(Clone, Copy, Debug, PartialEq, Eq)]
pub struct Rect {
    pub x: u16,
    pub y: u16,
    pub width: u16,
    pub height: u16,
}

/// A rectangle whose far edges stay within the cell grid.
pub open spec fn rect_wf(r: Rect) -> bool {
    r.x + r.width <= u16::MAX && r.y + r.height <= u16::MAX
}

/// Calculate a rectangle centered within `area`, sized to the given
/// percentages of `area`'s dimensions.  The margins on each side take
/// `(100 - pct) / 2` percent, so integer arithmetic may leave the result
/// off-center by at most one cell.
pub fn centered_rect(percent_x: u16, percent_y: u16, area: Rect) -> (r: Rect)
    requires
        percent_x <= 100,
        percent_y <= 100,
        rect_wf(area),
    ensures
        r.width == area.width as int * percent_x as int / 100,
        r.height == area.height as int * percent_y as int / 100,
        r.x == area.x as int + area.width as int * (((100 - percent_x) as int) / 2) / 100,
        r.y == area.y as int + area.height as int * (((100 - percent_y) as int) / 2) / 100,
        r.x as int + r.width as int <= area.x as int + area.width as int,
        r.y as int + r.height as int <= area.y as int + area.height as int,
        rect_wf(r),
{
    let w = area.width as u32;
    let h = area.height as u32;
    let pw = percent_x as u32;
    let ph = percent_y as u32;
    let qw = (100 - pw) / 2;
    let qh = (100 - ph) / 2;
    proof {
        lemma_split_fits(w as int, pw as int, qw as int);
        lemma_split_fits(h as int, ph as int, qh as int);
    }
    let dx = (w * qw / 100) as u16;
    let dy = (h * qh / 100) as u16;
    let rw = (w * pw / 100) as u16;
    let rh = (h * ph / 100) as u16;
    Rect { x: area.x + dx, y: area.y + dy, width: rw, height: rh }
}

/// A proportional split never overruns the whole: the floored margin plus
/// the floored middle band fit inside `w` when the percentages fit in 100.
proof fn lemma_split_fits(w: int, p: int, q: int)
    requires
        w >= 0,
        p >= 0,
        q >= 0,
        p + q <= 100,
    ensures
        w * q / 100 + w * p / 100 <= w,
        w * p / 100 <= w,
        w * q / 100 <= w,
{
    assert(w * q + w * p <= w * 100) by (nonlinear_arith)
        requires
            w >= 0,
            p >= 0,
            q >= 0,
            p + q <= 100,
    ;
    assert(w * q >= 0 && w * p >= 0) by (nonlinear_arith)
        requires
            w >= 0,
            p >= 0,
            q >= 0,
    ;
    let sq = w * q / 100;
    let sp = w * p / 100;
    vstd::arithmetic::div_mod::lemma_fundamental_div_mod(w * q, 100);
    vstd::arithmetic::div_mod::lemma_fundamental_div_mod(w * p, 100);
    assert(100 * sq <= w * q);
    assert(100 * sp <= w * p);
    assert(100 * (sq + sp) <= w * 100);
}

} // verus!
