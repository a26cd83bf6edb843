// Utility types and helpers shared by every component: exit codes, error
// messages, decimal rendering of byte counts, and sidecar-name handling.

use vstd::arithmetic::div_mod::{
    lemma_div_denominator, lemma_fundamental_div_mod, lemma_multiply_divide_lt,
};
use vstd::arithmetic::mul::lemma_mul_inequality;
use vstd::prelude::*;

verus! {

// Self-describing exit codes.  Each exit point of the program uses a clear
// exit code together with a message for more detail.  Codes whose name starts
// with an underscore are reserved or unused.
#[derive(Debug, Clone, Copy, PartialEq, Eq, Structural)]
pub enum ExitCode {
    // Special codes
    _CleanExit,
    Interrupted,
    _ReservedByClap,
    StderrLoggerError,
    // Generic codes
    CannotRegisterSignalHandler,
    CannotCreateDir,
    CannotChangeDir,
    CannotOpenConfig,
    CannotParseConfig,
    CannotValidateConfig,
    CannotConnectToTwitch,
    RequestErrorFromTwitch,
    GQLErrorFromTwitch,
    CannotParseResponseFromTwitch,
    CannotStartFfmpeg,
    FfmpegReturnedError,
    FfmpegInterrupted,
    CannotGlobDirectory,
    // Command-specific codes
    InitCannotOpenConfig,
    InitCannotWriteConfig,
    InitCannotSerializeConfig,
    PullCannotGetPlaylistURI,
    PullCannotReadPlaylistURI,
    PullCannotParsePlaylistURI,
    PullCannotFindPlaylistURI,
    PullCannotGetSourcePlaylist,
    PullCannotReadSourcePlaylist,
    PullCannotParseSourcePlaylist,
    PullCannotUseSourcePlaylist,
    PullCannotWriteSourcePlaylist,
    PullCannotCleanUpAfterDownload,
    PullCannotGetChunk,
    PullCannotParseChunk,
    PullCannotWriteChunk,
    PullCannotOpenMeta,
}

/// An error carried up to the top-level driver: an exit code plus a
/// human-readable message.
#[derive(Debug)]
pub struct ExitMsg {
    pub code: ExitCode,
    pub msg: String,
}

impl ExitMsg {
    pub fn new(code: ExitCode, msg: String) -> (r: Self)
        ensures
            r.code == code,
            r.msg@ == msg@,
    {
        ExitMsg { code, msg }
    }

    /// A copy of the message with the same code and text.
    pub fn duplicate(&self) -> (r: Self)
        ensures
            r.code == self.code,
            r.msg@ == self.msg@,
    {
        ExitMsg { code: self.code, msg: self.msg.clone() }
    }
}

/// Relies on `alloc::string::String::push`, which appends the given
/// character to the end of the string.
pub assume_specification[ String::push ](s: &mut String, ch: char)
    ensures
        final(s)@ == old(s)@.push(ch),
;

pub open spec fn digit_char(d: int) -> char {
    if d == 0 { '0' }
    else if d == 1 { '1' }
    else if d == 2 { '2' }
    else if d == 3 { '3' }
    else if d == 4 { '4' }
    else if d == 5 { '5' }
    else if d == 6 { '6' }
    else if d == 7 { '7' }
    else if d == 8 { '8' }
    else { '9' }
}

fn digit_char_exec(d: u64) -> (c: char)
    requires
        d <= 9,
    ensures
        c == digit_char(d as int),
{
    if d == 0 { '0' }
    else if d == 1 { '1' }
    else if d == 2 { '2' }
    else if d == 3 { '3' }
    else if d == 4 { '4' }
    else if d == 5 { '5' }
    else if d == 6 { '6' }
    else if d == 7 { '7' }
    else if d == 8 { '8' }
    else { '9' }
}

/// The usual decimal rendering of a natural number, most significant digit
/// first, with no leading zeros (a single `'0'` for zero).
pub open spec fn dec_str(n: nat) -> Seq<char>
    decreases n,
{
    if n < 10 {
        seq![digit_char(n as int)]
    } else {
        dec_str(n / 10).push(digit_char((n % 10) as int))
    }
}

/// Renders `n` in decimal.
pub fn u64_to_dec(n: u64) -> (s: String)
    ensures
        s@ == dec_str(n as nat),
    decreases n,
{
    if n < 10 {
        let mut s = String::new();
        s.push(digit_char_exec(n));
        proof {
            assert(s@ =~= dec_str(n as nat));
        }
        s
    } else {
        let mut s = u64_to_dec(n / 10);
        s.push(digit_char_exec(n % 10));
        s
    }
}

/// The decimal rendering of an integer, with a leading minus sign when it
/// is negative.
pub open spec fn int_dec_str(n: int) -> Seq<char> {
    if n < 0 {
        seq!['-'] + dec_str((-n) as nat)
    } else {
        dec_str(n as nat)
    }
}

/// Renders a signed 32-bit value in decimal.
pub fn i32_to_dec(n: i32) -> (s: String)
    ensures
        s@ == int_dec_str(n as int),
{
    let wide: i64 = n as i64;
    if wide < 0 {
        let mut s = String::new();
        s.push('-');
        let mag = u64_to_dec((-wide) as u64);
        s.append(mag.as_str());
        proof {
            assert(s@ =~= int_dec_str(n as int));
        }
        s
    } else {
        u64_to_dec(wide as u64)
    }
}

pub open spec fn pow1000(k: nat) -> nat
    decreases k,
{
    if k == 0 {
        1
    } else {
        1000 * pow1000((k - 1) as nat)
    }
}

/// The unit in which a byte count is displayed: the number of divisions by
/// 1000 needed to bring it under 1000, capped at six (the fallback unit).
pub open spec fn unit_index(n: nat) -> nat
    decreases n,
{
    if n < 1000 {
        0
    } else {
        let r = unit_index(n / 1000) + 1;
        if r > 6 { 6 } else { r }
    }
}

pub open spec fn unit_name(k: nat) -> Seq<char> {
    if k == 0 { seq!['B'] }
    else if k == 1 { seq!['k', 'B'] }
    else if k == 2 { seq!['M', 'B'] }
    else if k == 3 { seq!['G', 'B'] }
    else if k == 4 { seq!['P', 'B'] }
    else if k == 5 { seq!['E', 'B'] }
    else { seq!['Z', 'B'] }
}

/// `count` fractional digits of `rem / base`, by long division.
pub open spec fn frac_digits(rem: nat, base: nat, count: nat) -> Seq<char>
    decreases count,
{
    if count == 0 {
        Seq::empty()
    } else {
        seq![digit_char(((rem * 10) / base) as int)] + frac_digits(
            (rem * 10) % base,
            base,
            (count - 1) as nat,
        )
    }
}

/// What `format_size` returns: the whole part of `size` in its display unit,
/// a dot and `digits` fractional digits when `digits > 0`, and the unit name
/// when `with_units` is set.
pub open spec fn size_repr(size: nat, digits: nat, with_units: bool) -> Seq<char> {
    let k = unit_index(size);
    let base = pow1000(k);
    let number = dec_str(size / base) + if digits == 0 {
        Seq::<char>::empty()
    } else {
        seq!['.'] + frac_digits(size % base, base, digits)
    };
    number + if with_units {
        seq![' '] + unit_name(k)
    } else {
        Seq::<char>::empty()
    }
}

proof fn lemma_unit_index_le_6(n: nat)
    ensures
        unit_index(n) <= 6,
{
    if n >= 1000 {
    }
}

proof fn lemma_pow1000_bound(k: nat)
    requires
        k <= 6,
    ensures
        pow1000(k) <= 1_000_000_000_000_000_000,
        pow1000(k) >= 1,
    decreases k,
{
    if k > 0 {
        lemma_pow1000_bound((k - 1) as nat);
        reveal_with_fuel(pow1000, 7);
    }
}

fn unit_name_exec(k: u64) -> (s: &'static str)
    requires
        k <= 6,
    ensures
        s@ == unit_name(k as nat),
{
    proof {
        reveal_strlit("B");
        reveal_strlit("kB");
        reveal_strlit("MB");
        reveal_strlit("GB");
        reveal_strlit("PB");
        reveal_strlit("EB");
        reveal_strlit("ZB");
    }
    let s = if k == 0 { "B" }
    else if k == 1 { "kB" }
    else if k == 2 { "MB" }
    else if k == 3 { "GB" }
    else if k == 4 { "PB" }
    else if k == 5 { "EB" }
    else { "ZB" };
    proof {
        assert(s@ =~= unit_name(k as nat));
    }
    s
}

/// Renders a byte count for humans, e.g. `"1.5 kB"`: the count is divided by
/// 1000 until it is below 1000 (six divisions at most), shown with `digits`
/// fractional digits (truncated, not rounded), and followed by the unit name
/// when `display_units` is set.
pub fn format_size(size: usize, digits: usize, display_units: bool) -> (s: String)
    ensures
        s@ == size_repr(size as nat, digits as nat, display_units),
{
    let size64: u64 = size as u64;
    let mut k: u64 = 0;
    let mut base: u64 = 1;
    while k < 6 && size64 / base >= 1000
        invariant
            k <= 6,
            base >= 1,
            base == pow1000(k as nat),
            unit_index(size64 as nat) == spec_min6(k as nat + unit_index((size64 / base) as nat)),
        decreases 6 - k,
    {
        proof {
            let q = (size64 / base) as nat;
            // the quotient so far is at least 1000, so multiplying the base by
            // 1000 stays within what size64 itself bounds
            lemma_fundamental_div_mod(size64 as int, base as int);
            lemma_mul_inequality(1000, q as int, base as int);
            lemma_div_denominator(size64 as int, base as int, 1000);
            assert(unit_index(q) == spec_min6(1 + unit_index((q / 1000) as nat)));
            lemma_unit_index_le_6((q / 1000) as nat);
        }
        base = base * 1000;
        k = k + 1;
    }
    proof {
        lemma_unit_index_le_6((size64 / base) as nat);
        if size64 / base < 1000 {
            assert(unit_index((size64 / base) as nat) == 0);
        }
        assert(unit_index(size64 as nat) == k as nat);
        lemma_pow1000_bound(k as nat);
    }
    let whole: u64 = size64 / base;
    let mut rem: u64 = size64 % base;
    let mut s = u64_to_dec(whole);
    if digits > 0 {
        s.push('.');
        let ghost frac_all = frac_digits((size64 % base) as nat, base as nat, digits as nat);
        let ghost head = s@;
        let mut i: usize = 0;
        while i < digits
            invariant
                i <= digits,
                base == pow1000(unit_index(size64 as nat)),
                base >= 1,
                base <= 1_000_000_000_000_000_000,
                rem < base,
                s@ + frac_digits(rem as nat, base as nat, (digits - i) as nat) == head + frac_all,
            decreases digits - i,
        {
            proof {
                lemma_fundamental_div_mod((rem * 10) as int, base as int);
                lemma_multiply_divide_lt((rem * 10) as int, base as int, 10);
            }
            let r10: u64 = rem * 10;
            let d: u64 = r10 / base;
            rem = r10 % base;
            s.push(digit_char_exec(d));
            i = i + 1;
        }
        proof {
            assert(s@ =~= head + frac_all);
        }
    }
    if display_units {
        s.push(' ');
        let u = unit_name_exec(k);
        s.append(u);
    }
    proof {
        assert(s@ =~= size_repr(size as nat, digits as nat, display_units));
    }
    s
}

spec fn spec_min6(x: nat) -> nat {
    if x > 6 { 6 } else { x }
}

/// The parts joined with the separator between each pair.
pub open spec fn join_with(parts: Seq<Seq<char>>, sep: Seq<char>) -> Seq<char>
    decreases parts.len(),
{
    if parts.len() == 0 {
        Seq::empty()
    } else if parts.len() == 1 {
        parts[0]
    } else {
        join_with(parts.drop_last(), sep) + sep + parts.last()
    }
}

/// Joins strings with a separator.
pub fn join_strings(parts: &Vec<String>, sep: &str) -> (r: String)
    ensures
        r@ == join_with(parts@.map_values(|s: String| s@), sep@),
{
    let ghost views = parts@.map_values(|s: String| s@);
    let mut r = String::new();
    let mut i: usize = 0;
    while i < parts.len()
        invariant
            i <= views.len(),
            views == parts@.map_values(|s: String| s@),
            r@ == join_with(views.take(i as int), sep@),
        decreases views.len() - i,
    {
        if i > 0 {
            r.append(sep);
        }
        r.append(parts[i].as_str());
        proof {
            if i == 0 {
                assert(r@ =~= views[0]);
            } else {
                assert(views.take(i + 1).drop_last() =~= views.take(i as int));
                assert(views.take(i + 1).last() == views[i as int]);
            }
            assert(r@ == join_with(views.take(i + 1), sep@));
        }
        i = i + 1;
    }
    proof {
        assert(views.take(views.len() as int) =~= views);
    }
    r
}

/// The item id recorded in a sidecar file's name: the characters between the
/// 21-character date-time prefix and the 10-character `".meta.json"` suffix.
/// `None` when the name is too short to hold both.
pub fn meta_id_from_filename(name: &str) -> (r: Option<String>)
    ensures
        match r {
            Some(id) => name@.len() >= 31 && id@ == name@.subrange(21, name@.len() - 10),
            None => name@.len() < 31,
        },
{
    let n = name.unicode_len();
    if n >= 31 {
        let id = name.substring_char(21, n - 10);
        Some(id.to_owned())
    } else {
        None
    }
}

} // verus!
