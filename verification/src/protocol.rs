//! The line protocol of the test server: splitting a request into words,
//! recognising the command, checking and parsing its arguments, and the
//! commands that compute on integers alone.

use vstd::prelude::*;
use vstd::pervasive::unreached;
use vstd::string::StringSliceAdditionalSpecFns;
use crate::perlin::{
    all_distinct, is_sampler_from, sampler_draws_within, table_generator,
    try_create_perlin_noise_sampler, try_make_permutation_table, PerlinNoiseSampler, MAX_REDRAWS,
};
use crate::xoroshiro::{
    create_xoroshiro_seed, create_xoroshiro_seed_str, lemma_xoro_iter_succ, mixed_seed, name_seed,
    xoro_init, xoro_iter, xoro_out, Xoroshiro128PlusPlusRandom,
};

verus! {

// ── Words ────────────────────────────────────────────────────────────────────

/// Unicode white space (the `White_Space` property).
pub open spec fn is_space(c: char) -> bool {
    let u = c as u32;
    ||| 0x09 <= u <= 0x0D
    ||| u == 0x20
    ||| u == 0x85
    ||| u == 0xA0
    ||| u == 0x1680
    ||| 0x2000 <= u <= 0x200A
    ||| u == 0x2028
    ||| u == 0x2029
    ||| u == 0x202F
    ||| u == 0x205F
    ||| u == 0x3000
}

/// Whether a character is Unicode white space.
pub fn is_whitespace(c: char) -> (b: bool)
    ensures
        b == is_space(c),
{
    let u = c as u32;
    (0x09 <= u && u <= 0x0D) || u == 0x20 || u == 0x85 || u == 0xA0 || u == 0x1680 || (0x2000
        <= u && u <= 0x200A) || u == 0x2028 || u == 0x2029 || u == 0x202F || u == 0x205F || u
        == 0x3000
}

/// The end of the word that starts at `i`: the first white space at or
/// after `i`, or the end of the line.
pub open spec fn word_end(s: Seq<char>, i: int) -> int
    decreases s.len() - i,
{
    if i < 0 || i >= s.len() || is_space(s[i]) {
        i
    } else {
        word_end(s, i + 1)
    }
}

proof fn lemma_word_end(s: Seq<char>, i: int)
    requires
        0 <= i <= s.len(),
    ensures
        i <= word_end(s, i) <= s.len(),
        i < s.len() && !is_space(s[i]) ==> word_end(s, i) > i,
        forall|k: int| i <= k < word_end(s, i) ==> !is_space(#[trigger] s[k]),
        word_end(s, i) < s.len() ==> is_space(s[word_end(s, i)]),
    decreases s.len() - i,
{
    if i < s.len() && !is_space(s[i]) {
        lemma_word_end(s, i + 1);
    }
}

/// The words of `s` from position `i` on: the maximal runs of characters
/// that are not white space, in order.
pub open spec fn words_from(s: Seq<char>, i: int) -> Seq<Seq<char>>
    decreases s.len() - i,
{
    if i < 0 || i >= s.len() {
        Seq::empty()
    } else if is_space(s[i]) {
        words_from(s, i + 1)
    } else {
        let e = word_end(s, i);
        if e <= i || e > s.len() {
            Seq::empty()
        } else {
            seq![s.subrange(i, e)] + words_from(s, e)
        }
    }
}

/// The words of a line.
pub open spec fn words(s: Seq<char>) -> Seq<Seq<char>> {
    words_from(s, 0)
}

/// Splits a line into its words (what `str::split_whitespace` yields).
pub fn split_whitespace(line: &str) -> (r: Vec<&str>)
    ensures
        r@.len() == words(line@).len(),
        forall|k: int| 0 <= k < r@.len() ==> (#[trigger] r@[k])@ == words(line@)[k],
{
    let n = line.unicode_len();
    let ghost s = line@;
    let mut out: Vec<&str> = Vec::new();
    let mut i: usize = 0;
    while i < n
        invariant
            i <= n,
            n == s.len(),
            s == line@,
            out@.len() + words_from(s, i as int).len() == words(s).len(),
            forall|k: int| 0 <= k < out@.len() ==> (#[trigger] out@[k])@ == words(s)[k],
            forall|k: int|
                0 <= k < words_from(s, i as int).len() ==> #[trigger] words_from(s, i as int)[k]
                    == words(s)[out@.len() + k],
        decreases n - i,
    {
        let c = line.get_char(i);
        if is_whitespace(c) {
            assert(words_from(s, i as int) == words_from(s, i + 1));
            i = i + 1;
        } else {
            proof {
                lemma_word_end(s, i as int);
            }
            let mut j: usize = i + 1;
            while j < n && !is_whitespace(line.get_char(j))
                invariant
                    i < j <= n,
                    n == s.len(),
                    s == line@,
                    word_end(s, i as int) == word_end(s, j as int),
                decreases n - j,
            {
                j = j + 1;
            }
            assert(word_end(s, i as int) == j);
            let word = line.substring_char(i, j);
            let ghost rest = words_from(s, j as int);
            assert(words_from(s, i as int) == seq![s.subrange(i as int, j as int)] + rest);
            assert(words_from(s, i as int)[0] == s.subrange(i as int, j as int));
            let ghost before = out@;
            out.push(word);
            assert forall|k: int| 0 <= k < rest.len() implies #[trigger] rest[k] == words(s)[out@.len()
                + k] by {
                assert(words_from(s, i as int)[k + 1] == rest[k]);
            }
            i = j;
        }
    }
    assert(words_from(s, n as int).len() == 0);
    out
}

// ── Integers ─────────────────────────────────────────────────────────────────

/// Why a word is not an integer of the wanted type.
#[derive(Clone, Copy, Debug, PartialEq, Eq, Structural)]
pub enum IntError {
    /// The word is empty.
    Empty,
    /// A character is not a digit (or a sign stands alone).
    InvalidDigit,
    /// The number is above the type's maximum.
    PosOverflow,
    /// The number is below the type's minimum.
    NegOverflow,
}

/// Whether a character is an ASCII decimal digit.
pub open spec fn is_digit(c: char) -> bool {
    '0' <= c <= '9'
}

/// The value of a decimal digit.
pub open spec fn digit_value(c: char) -> int {
    (c as u32) - ('0' as u32)
}

/// Reading the first `k` digits of `ds` left to right, with the sign
/// applied to every digit, and stopping at the first digit that is not one
/// or the first value outside `[min, max]`.
pub open spec fn read_digits(ds: Seq<char>, negative: bool, min: int, max: int, k: nat) -> Result<
    int,
    IntError,
>
    decreases k,
{
    if k == 0 {
        Ok(0)
    } else {
        match read_digits(ds, negative, min, max, (k - 1) as nat) {
            Err(e) => Err(e),
            Ok(v) => {
                let c = ds[k - 1];
                if !is_digit(c) {
                    Err(IntError::InvalidDigit)
                } else {
                    let w = if negative {
                        v * 10 - digit_value(c)
                    } else {
                        v * 10 + digit_value(c)
                    };
                    if w > max {
                        Err(IntError::PosOverflow)
                    } else if w < min {
                        Err(IntError::NegOverflow)
                    } else {
                        Ok(w)
                    }
                }
            },
        }
    }
}

/// Once reading stops with an error, reading more digits gives that error.
proof fn lemma_read_digits_err(ds: Seq<char>, negative: bool, min: int, max: int, j: nat, m: nat)
    requires
        j <= m,
        read_digits(ds, negative, min, max, j) is Err,
    ensures
        read_digits(ds, negative, min, max, m) == read_digits(ds, negative, min, max, j),
    decreases m - j,
{
    if j < m {
        lemma_read_digits_err(ds, negative, min, max, j, (m - 1) as nat);
    }
}

/// A decimal integer of the range `[min, max]` read from `s`: an optional
/// `+` (or `-` when the type is signed) and at least one digit; a sign
/// alone is an invalid digit.
pub open spec fn parse_int_spec(s: Seq<char>, min: int, max: int, signed: bool) -> Result<int, IntError> {
    if s.len() == 0 {
        Err(IntError::Empty)
    } else if (s[0] == '+' || s[0] == '-') && s.len() == 1 {
        Err(IntError::InvalidDigit)
    } else if s[0] == '+' {
        read_digits(s.drop_first(), false, min, max, (s.len() - 1) as nat)
    } else if s[0] == '-' && signed {
        read_digits(s.drop_first(), true, min, max, (s.len() - 1) as nat)
    } else {
        read_digits(s, false, min, max, s.len())
    }
}

/// Reads a decimal integer of the range `[min, max]`.
fn parse_integer(s: &str, min: i128, max: i128, signed: bool) -> (r: Result<i128, IntError>)
    requires
        -0x1_0000_0000_0000_0000 <= min <= 0 <= max <= 0x1_0000_0000_0000_0000,
    ensures
        match parse_int_spec(s@, min as int, max as int, signed) {
            Ok(v) => r == Ok::<i128, IntError>(v as i128),
            Err(e) => r == Err::<i128, IntError>(e),
        },
        r matches Ok(v) ==> min <= v <= max,
{
    let n = s.unicode_len();
    if n == 0 {
        return Err(IntError::Empty);
    }
    let first = s.get_char(0);
    if (first == '+' || first == '-') && n == 1 {
        return Err(IntError::InvalidDigit);
    }
    let negative = first == '-' && signed;
    let start: usize = if first == '+' || negative { 1 } else { 0 };
    let ghost ds = s@.subrange(start as int, n as int);
    assert(start == 1 ==> ds == s@.drop_first());
    assert(start == 0 ==> ds == s@);
    assert(parse_int_spec(s@, min as int, max as int, signed) == read_digits(
        ds,
        negative,
        min as int,
        max as int,
        (n - start) as nat,
    ));
    let mut acc: i128 = 0;
    let mut k: usize = start;
    while k < n
        invariant
            start <= k <= n,
            n == s@.len(),
            ds == s@.subrange(start as int, n as int),
            parse_int_spec(s@, min as int, max as int, signed) == read_digits(
                ds,
                negative,
                min as int,
                max as int,
                (n - start) as nat,
            ),
            -0x1_0000_0000_0000_0000 <= min <= 0 <= max <= 0x1_0000_0000_0000_0000,
            read_digits(ds, negative, min as int, max as int, (k - start) as nat) == Ok::<
                int,
                IntError,
            >(acc as int),
            min <= acc <= max,
        decreases n - k,
    {
        let c = s.get_char(k);
        assert(ds[(k - start) as int] == c);
        let ghost j = (k - start + 1) as nat;
        if !('0' <= c && c <= '9') {
            proof {
                lemma_read_digits_err(ds, negative, min as int, max as int, j, (n - start) as nat);
            }
            return Err(IntError::InvalidDigit);
        }
        let d = (c as u32 - '0' as u32) as i128;
        let w = if negative {
            acc * 10 - d
        } else {
            acc * 10 + d
        };
        if w > max {
            proof {
                lemma_read_digits_err(ds, negative, min as int, max as int, j, (n - start) as nat);
            }
            return Err(IntError::PosOverflow);
        }
        if w < min {
            proof {
                lemma_read_digits_err(ds, negative, min as int, max as int, j, (n - start) as nat);
            }
            return Err(IntError::NegOverflow);
        }
        acc = w;
        k = k + 1;
    }
    Ok(acc)
}

/// Reads an `i64` the way `str::parse::<i64>` does.
pub fn parse_i64(s: &str) -> (r: Result<i64, IntError>)
    ensures
        match parse_int_spec(s@, i64::MIN as int, i64::MAX as int, true) {
            Ok(v) => r == Ok::<i64, IntError>(v as i64),
            Err(e) => r == Err::<i64, IntError>(e),
        },
{
    match parse_integer(s, i64::MIN as i128, i64::MAX as i128, true) {
        Ok(v) => Ok(v as i64),
        Err(e) => Err(e),
    }
}

/// Reads a `u64` the way `str::parse::<u64>` does.
pub fn parse_u64(s: &str) -> (r: Result<u64, IntError>)
    ensures
        match parse_int_spec(s@, 0, u64::MAX as int, false) {
            Ok(v) => r == Ok::<u64, IntError>(v as u64),
            Err(e) => r == Err::<u64, IntError>(e),
        },
{
    match parse_integer(s, 0, u64::MAX as i128, false) {
        Ok(v) => Ok(v as u64),
        Err(e) => Err(e),
    }
}

/// Reads an `i32` the way `str::parse::<i32>` does.
pub fn parse_i32(s: &str) -> (r: Result<i32, IntError>)
    ensures
        match parse_int_spec(s@, i32::MIN as int, i32::MAX as int, true) {
            Ok(v) => r == Ok::<i32, IntError>(v as i32),
            Err(e) => r == Err::<i32, IntError>(e),
        },
{
    match parse_integer(s, i32::MIN as i128, i32::MAX as i128, true) {
        Ok(v) => Ok(v as i32),
        Err(e) => Err(e),
    }
}

// ── Floating-point literals ──────────────────────────────────────────────────

/// ASCII lower case of a character.
pub open spec fn lower(c: char) -> char {
    if 'A' <= c <= 'Z' {
        ((c as u32) + 32) as char
    } else {
        c
    }
}

/// Whether every character is a decimal digit.
pub open spec fn all_digits(s: Seq<char>) -> bool {
    forall|i: int| 0 <= i < s.len() ==> is_digit(#[trigger] s[i])
}

/// The position of the first character whose lower case is `t`, or the
/// length when there is none.
pub open spec fn first_index(s: Seq<char>, t: char) -> int
    decreases s.len(),
{
    if s.len() == 0 {
        0
    } else if lower(s[0]) == t {
        0
    } else {
        1 + first_index(s.drop_first(), t)
    }
}

/// Whether `s`, ignoring ASCII case, is the lower-case word `w`.
pub open spec fn is_word(s: Seq<char>, w: Seq<char>) -> bool {
    s.len() == w.len() && forall|i: int| 0 <= i < s.len() ==> lower(#[trigger] s[i]) == w[i]
}

/// `Digit+ | Digit+ '.' Digit* | Digit* '.' Digit+`.
pub open spec fn is_mantissa(m: Seq<char>) -> bool {
    let d = first_index(m, '.');
    if d >= m.len() {
        m.len() > 0 && all_digits(m)
    } else {
        m.len() >= 2 && all_digits(m.take(d)) && all_digits(m.skip(d + 1))
    }
}

/// `Sign? Digit+`.
pub open spec fn is_exponent(e: Seq<char>) -> bool {
    let d = if e.len() > 0 && (e[0] == '+' || e[0] == '-') {
        e.drop_first()
    } else {
        e
    };
    d.len() > 0 && all_digits(d)
}

/// `Mantissa Exp?`, the exponent starting at the first `e` or `E`.
pub open spec fn is_number(b: Seq<char>) -> bool {
    let p = first_index(b, 'e');
    if p >= b.len() {
        is_mantissa(b)
    } else {
        is_mantissa(b.take(p)) && is_exponent(b.skip(p + 1))
    }
}

/// What `str::parse::<f64>` accepts: an optional sign, then `inf`,
/// `infinity`, `nan` (in any case) or a decimal number with an optional
/// exponent.
pub open spec fn is_float_literal_spec(s: Seq<char>) -> bool {
    let b = if s.len() > 0 && (s[0] == '+' || s[0] == '-') {
        s.drop_first()
    } else {
        s
    };
    ||| is_word(b, seq!['i', 'n', 'f'])
    ||| is_word(b, seq!['i', 'n', 'f', 'i', 'n', 'i', 't', 'y'])
    ||| is_word(b, seq!['n', 'a', 'n'])
    ||| is_number(b)
}

fn lower_char(c: char) -> (r: char)
    ensures
        r == lower(c),
{
    if 'A' <= c && c <= 'Z' {
        ((c as u8) + 32) as char
    } else {
        c
    }
}

proof fn lemma_first_index_bounds(s: Seq<char>, t: char)
    ensures
        0 <= first_index(s, t) <= s.len(),
        first_index(s, t) < s.len() ==> lower(s[first_index(s, t)]) == t,
        forall|k: int| 0 <= k < first_index(s, t) ==> lower(#[trigger] s[k]) != t,
    decreases s.len(),
{
    if s.len() > 0 && lower(s[0]) != t {
        lemma_first_index_bounds(s.drop_first(), t);
        assert forall|k: int| 0 <= k < first_index(s, t) implies lower(#[trigger] s[k]) != t by {
            if k > 0 {
                assert(s[k] == s.drop_first()[k - 1]);
            }
        }
    }
}

proof fn lemma_first_index_is(s: Seq<char>, t: char, p: int)
    requires
        0 <= p <= s.len(),
        p < s.len() ==> lower(s[p]) == t,
        forall|k: int| 0 <= k < p ==> lower(#[trigger] s[k]) != t,
    ensures
        first_index(s, t) == p,
    decreases s.len(),
{
    if s.len() > 0 && p > 0 {
        assert(lower(s[0]) != t);
        assert forall|k: int| 0 <= k < p - 1 implies lower(#[trigger] s.drop_first()[k]) != t by {
            assert(s.drop_first()[k] == s[k + 1]);
        }
        lemma_first_index_is(s.drop_first(), t, p - 1);
    }
}

/// The first position in `lo..hi` whose character's lower case is `t`, or
/// `hi`.
fn find_lower(s: &str, lo: usize, hi: usize, t: char) -> (r: usize)
    requires
        lo <= hi <= s@.len(),
    ensures
        r == lo + first_index(s@.subrange(lo as int, hi as int), t),
{
    let ghost b = s@.subrange(lo as int, hi as int);
    let mut p = lo;
    while p < hi && lower_char(s.get_char(p)) != t
        invariant
            lo <= p <= hi <= s@.len(),
            b == s@.subrange(lo as int, hi as int),
            forall|k: int| 0 <= k < p - lo ==> lower(#[trigger] b[k]) != t,
        decreases hi - p,
    {
        p = p + 1;
    }
    proof {
        lemma_first_index_is(b, t, p - lo);
    }
    p
}

/// Whether every character in `lo..hi` is a decimal digit.
fn digits_only(s: &str, lo: usize, hi: usize) -> (r: bool)
    requires
        lo <= hi <= s@.len(),
    ensures
        r == all_digits(s@.subrange(lo as int, hi as int)),
{
    let ghost b = s@.subrange(lo as int, hi as int);
    let mut p = lo;
    while p < hi
        invariant
            lo <= p <= hi <= s@.len(),
            b == s@.subrange(lo as int, hi as int),
            forall|k: int| 0 <= k < p - lo ==> is_digit(#[trigger] b[k]),
        decreases hi - p,
    {
        let c = s.get_char(p);
        if !('0' <= c && c <= '9') {
            assert(b[p - lo] == c);
            return false;
        }
        p = p + 1;
    }
    true
}

/// Whether the characters in `lo..hi` spell the lower-case word `w`,
/// ignoring ASCII case.
fn spells(s: &str, lo: usize, hi: usize, w: &[char]) -> (r: bool)
    requires
        lo <= hi <= s@.len(),
    ensures
        r == is_word(s@.subrange(lo as int, hi as int), w@),
{
    let ghost b = s@.subrange(lo as int, hi as int);
    if hi - lo != w.len() {
        return false;
    }
    let mut k: usize = 0;
    while k < w.len()
        invariant
            k <= w.len() == hi - lo,
            lo <= hi <= s@.len(),
            b == s@.subrange(lo as int, hi as int),
            forall|i: int| 0 <= i < k ==> lower(#[trigger] b[i]) == w@[i],
        decreases w.len() - k,
    {
        let c = lower_char(s.get_char(lo + k));
        assert(b[k as int] == s@[lo + k]);
        if c != w[k] {
            return false;
        }
        k = k + 1;
    }
    true
}

/// Whether the characters in `lo..hi` form a mantissa.
fn mantissa_ok(s: &str, lo: usize, hi: usize) -> (r: bool)
    requires
        lo <= hi <= s@.len(),
    ensures
        r == is_mantissa(s@.subrange(lo as int, hi as int)),
{
    let ghost m = s@.subrange(lo as int, hi as int);
    let d = find_lower(s, lo, hi, '.');
    proof {
        lemma_first_index_bounds(m, '.');
    }
    if d >= hi {
        hi > lo && digits_only(s, lo, hi)
    } else {
        assert(m.take(d - lo) == s@.subrange(lo as int, d as int));
        assert(m.skip(d - lo + 1) == s@.subrange(d + 1, hi as int));
        hi - lo >= 2 && digits_only(s, lo, d) && digits_only(s, d + 1, hi)
    }
}

/// Whether the characters in `lo..hi` form an exponent's digits.
fn exponent_ok(s: &str, lo: usize, hi: usize) -> (r: bool)
    requires
        lo <= hi <= s@.len(),
    ensures
        r == is_exponent(s@.subrange(lo as int, hi as int)),
{
    let ghost e = s@.subrange(lo as int, hi as int);
    if lo < hi {
        let c = s.get_char(lo);
        if c == '+' || c == '-' {
            assert(e.drop_first() == s@.subrange(lo + 1, hi as int));
            return lo + 1 < hi && digits_only(s, lo + 1, hi);
        }
    }
    lo < hi && digits_only(s, lo, hi)
}

/// Whether `str::parse::<f64>` accepts the word.
pub fn is_float_literal(s: &str) -> (r: bool)
    ensures
        r == is_float_literal_spec(s@),
{
    let n = s.unicode_len();
    let mut start: usize = 0;
    if n > 0 {
        let c = s.get_char(0);
        if c == '+' || c == '-' {
            start = 1;
        }
    }
    let ghost b = s@.subrange(start as int, n as int);
    assert(start == 1 ==> b == s@.drop_first());
    assert(start == 0 ==> b == s@);
    let inf = ['i', 'n', 'f'];
    let infinity = ['i', 'n', 'f', 'i', 'n', 'i', 't', 'y'];
    let nan = ['n', 'a', 'n'];
    assert(inf@ == seq!['i', 'n', 'f']);
    assert(infinity@ == seq!['i', 'n', 'f', 'i', 'n', 'i', 't', 'y']);
    assert(nan@ == seq!['n', 'a', 'n']);
    if spells(s, start, n, &inf) || spells(s, start, n, &infinity) || spells(s, start, n, &nan) {
        return true;
    }
    let p = find_lower(s, start, n, 'e');
    proof {
        lemma_first_index_bounds(b, 'e');
    }
    if p >= n {
        mantissa_ok(s, start, n)
    } else {
        assert(b.take(p - start) == s@.subrange(start as int, p as int));
        assert(b.skip(p - start + 1) == s@.subrange(p + 1, n as int));
        mantissa_ok(s, start, p) && exponent_ok(s, p + 1, n)
    }
}

// ── Commands ─────────────────────────────────────────────────────────────────

/// The commands the server answers.
#[derive(Clone, Copy, Debug, PartialEq, Eq, Structural)]
pub enum Command {
    Ping,
    Hermite,
    Fade,
    Clamp,
    Abs,
    Min,
    Max,
    SeededPerlin,
    Perlin,
    DoublePerlin,
    DensityPoint,
    DensityChunk,
    DensityChunkAll,
    MakePermutationTable,
    DensitySingleChunk,
    DensitySinglePoint,
    DensitySingleChunkAll,
    XoroshiroNext,
    XoroshiroNextN,
    XoroshiroSeedLong,
    XoroshiroSeedStr,
}

/// The command a word names.
pub open spec fn command_named(name: Seq<char>) -> Option<Command> {
    if name == "ping"@ {
        Some(Command::Ping)
    } else if name == "hermite"@ {
        Some(Command::Hermite)
    } else if name == "fade"@ {
        Some(Command::Fade)
    } else if name == "clamp"@ {
        Some(Command::Clamp)
    } else if name == "abs"@ {
        Some(Command::Abs)
    } else if name == "min"@ {
        Some(Command::Min)
    } else if name == "max"@ {
        Some(Command::Max)
    } else if name == "seeded_perlin"@ {
        Some(Command::SeededPerlin)
    } else if name == "perlin"@ {
        Some(Command::Perlin)
    } else if name == "double_perlin"@ {
        Some(Command::DoublePerlin)
    } else if name == "density_point"@ {
        Some(Command::DensityPoint)
    } else if name == "density_chunk"@ {
        Some(Command::DensityChunk)
    } else if name == "density_chunk_all"@ {
        Some(Command::DensityChunkAll)
    } else if name == "make_permutation_table"@ {
        Some(Command::MakePermutationTable)
    } else if name == "density_single_chunk"@ {
        Some(Command::DensitySingleChunk)
    } else if name == "density_single_point"@ {
        Some(Command::DensitySinglePoint)
    } else if name == "density_single_chunk_all"@ {
        Some(Command::DensitySingleChunkAll)
    } else if name == "xoroshiro_next"@ {
        Some(Command::XoroshiroNext)
    } else if name == "xoroshiro_next_n"@ {
        Some(Command::XoroshiroNextN)
    } else if name == "xoroshiro_seed_long"@ {
        Some(Command::XoroshiroSeedLong)
    } else if name == "xoroshiro_seed_str"@ {
        Some(Command::XoroshiroSeedStr)
    } else {
        None
    }
}

/// The word that names a command.
pub open spec fn command_name(c: Command) -> Seq<char> {
    match c {
        Command::Ping => "ping"@,
        Command::Hermite => "hermite"@,
        Command::Fade => "fade"@,
        Command::Clamp => "clamp"@,
        Command::Abs => "abs"@,
        Command::Min => "min"@,
        Command::Max => "max"@,
        Command::SeededPerlin => "seeded_perlin"@,
        Command::Perlin => "perlin"@,
        Command::DoublePerlin => "double_perlin"@,
        Command::DensityPoint => "density_point"@,
        Command::DensityChunk => "density_chunk"@,
        Command::DensityChunkAll => "density_chunk_all"@,
        Command::MakePermutationTable => "make_permutation_table"@,
        Command::DensitySingleChunk => "density_single_chunk"@,
        Command::DensitySinglePoint => "density_single_point"@,
        Command::DensitySingleChunkAll => "density_single_chunk_all"@,
        Command::XoroshiroNext => "xoroshiro_next"@,
        Command::XoroshiroNextN => "xoroshiro_next_n"@,
        Command::XoroshiroSeedLong => "xoroshiro_seed_long"@,
        Command::XoroshiroSeedStr => "xoroshiro_seed_str"@,
    }
}

/// Each command is named by its own word: reading the word back gives the
/// command, and a word that names a command is that command's word.
pub proof fn lemma_command_names(c: Command, w: Seq<char>)
    ensures
        command_named(command_name(c)) == Some(c),
        command_named(w) == Some(c) ==> w == command_name(c),
{
    reveal_strlit("ping");
    reveal_strlit("hermite");
    reveal_strlit("fade");
    reveal_strlit("clamp");
    reveal_strlit("abs");
    reveal_strlit("min");
    reveal_strlit("max");
    reveal_strlit("seeded_perlin");
    reveal_strlit("perlin");
    reveal_strlit("double_perlin");
    reveal_strlit("density_point");
    reveal_strlit("density_chunk");
    reveal_strlit("density_chunk_all");
    reveal_strlit("make_permutation_table");
    reveal_strlit("density_single_chunk");
    reveal_strlit("density_single_point");
    reveal_strlit("density_single_chunk_all");
    reveal_strlit("xoroshiro_next");
    reveal_strlit("xoroshiro_next_n");
    reveal_strlit("xoroshiro_seed_long");
    reveal_strlit("xoroshiro_seed_str");
    assert("ping"@.len() == 4);
    assert("hermite"@.len() == 7);
    assert("fade"@.len() == 4);
    assert("clamp"@.len() == 5);
    assert("abs"@.len() == 3);
    assert("min"@.len() == 3);
    assert("max"@.len() == 3);
    assert("seeded_perlin"@.len() == 13);
    assert("perlin"@.len() == 6);
    assert("double_perlin"@.len() == 13);
    assert("density_point"@.len() == 13);
    assert("density_chunk"@.len() == 13);
    assert("density_chunk_all"@.len() == 17);
    assert("make_permutation_table"@.len() == 22);
    assert("density_single_chunk"@.len() == 20);
    assert("density_single_point"@.len() == 20);
    assert("density_single_chunk_all"@.len() == 24);
    assert("xoroshiro_next"@.len() == 14);
    assert("xoroshiro_next_n"@.len() == 16);
    assert("xoroshiro_seed_long"@.len() == 19);
    assert("xoroshiro_seed_str"@.len() == 18);
    assert("ping"@[0] != "fade"@[0]);
    assert("abs"@[0] != "min"@[0]);
    assert("abs"@[0] != "max"@[0]);
    assert("min"@[1] != "max"@[1]);
    assert("seeded_perlin"@[0] != "double_perlin"@[0]);
    assert("seeded_perlin"@[0] != "density_point"@[0]);
    assert("seeded_perlin"@[0] != "density_chunk"@[0]);
    assert("double_perlin"@[1] != "density_point"@[1]);
    assert("double_perlin"@[1] != "density_chunk"@[1]);
    assert("density_point"@[8] != "density_chunk"@[8]);
    assert("density_single_chunk"@[15] != "density_single_point"@[15]);
}

/// Whether two strings hold the same characters.
pub(crate) fn same_text(a: &str, b: &str) -> (r: bool)
    ensures
        r == (a@ == b@),
{
    let n = a.unicode_len();
    if n != b.unicode_len() {
        return false;
    }
    let mut i: usize = 0;
    while i < n
        invariant
            i <= n,
            n == a@.len() == b@.len(),
            forall|k: int| 0 <= k < i ==> a@[k] == b@[k],
        decreases n - i,
    {
        if a.get_char(i) != b.get_char(i) {
            return false;
        }
        i = i + 1;
    }
    assert(a@ =~= b@);
    true
}

/// The command a word names, if any.
pub fn command_of(name: &str) -> (r: Option<Command>)
    ensures
        r == command_named(name@),
{
    if same_text(name, "ping") {
        Some(Command::Ping)
    } else if same_text(name, "hermite") {
        Some(Command::Hermite)
    } else if same_text(name, "fade") {
        Some(Command::Fade)
    } else if same_text(name, "clamp") {
        Some(Command::Clamp)
    } else if same_text(name, "abs") {
        Some(Command::Abs)
    } else if same_text(name, "min") {
        Some(Command::Min)
    } else if same_text(name, "max") {
        Some(Command::Max)
    } else if same_text(name, "seeded_perlin") {
        Some(Command::SeededPerlin)
    } else if same_text(name, "perlin") {
        Some(Command::Perlin)
    } else if same_text(name, "double_perlin") {
        Some(Command::DoublePerlin)
    } else if same_text(name, "density_point") {
        Some(Command::DensityPoint)
    } else if same_text(name, "density_chunk") {
        Some(Command::DensityChunk)
    } else if same_text(name, "density_chunk_all") {
        Some(Command::DensityChunkAll)
    } else if same_text(name, "make_permutation_table") {
        Some(Command::MakePermutationTable)
    } else if same_text(name, "density_single_chunk") {
        Some(Command::DensitySingleChunk)
    } else if same_text(name, "density_single_point") {
        Some(Command::DensitySinglePoint)
    } else if same_text(name, "density_single_chunk_all") {
        Some(Command::DensitySingleChunkAll)
    } else if same_text(name, "xoroshiro_next") {
        Some(Command::XoroshiroNext)
    } else if same_text(name, "xoroshiro_next_n") {
        Some(Command::XoroshiroNextN)
    } else if same_text(name, "xoroshiro_seed_long") {
        Some(Command::XoroshiroSeedLong)
    } else if same_text(name, "xoroshiro_seed_str") {
        Some(Command::XoroshiroSeedStr)
    } else {
        None
    }
}

/// What an argument must be.
#[derive(Clone, Copy, Debug, PartialEq, Eq, Structural)]
pub enum ArgKind {
    I64,
    U64,
    I32,
    F64,
    Word,
}

/// The arguments a command takes, in order (a `ping` takes no argument and
/// ignores any it is given).
pub open spec fn arg_kinds(c: Command) -> Seq<ArgKind> {
    match c {
        Command::Ping => seq![],
        Command::Hermite => seq![ArgKind::F64, ArgKind::F64, ArgKind::F64, ArgKind::F64, ArgKind::F64],
        Command::Fade => seq![ArgKind::F64, ArgKind::F64, ArgKind::F64],
        Command::Clamp => seq![ArgKind::F64, ArgKind::F64, ArgKind::F64],
        Command::Abs => seq![ArgKind::F64],
        Command::Min => seq![ArgKind::F64, ArgKind::F64],
        Command::Max => seq![ArgKind::F64, ArgKind::F64],
        Command::SeededPerlin => seq![ArgKind::I64, ArgKind::F64, ArgKind::F64, ArgKind::F64],
        Command::Perlin => seq![ArgKind::F64, ArgKind::F64, ArgKind::F64],
        Command::DoublePerlin => seq![
            ArgKind::I64,
            ArgKind::Word,
            ArgKind::Word,
            ArgKind::F64,
            ArgKind::F64,
            ArgKind::F64,
        ],
        Command::DensityPoint => seq![
            ArgKind::I64,
            ArgKind::F64,
            ArgKind::F64,
            ArgKind::F64,
            ArgKind::F64,
            ArgKind::F64,
            ArgKind::F64,
            ArgKind::F64,
        ],
        Command::DensityChunk => seq![ArgKind::I64, ArgKind::F64, ArgKind::F64, ArgKind::F64],
        Command::DensityChunkAll => seq![
            ArgKind::I64,
            ArgKind::F64,
            ArgKind::F64,
            ArgKind::F64,
            ArgKind::F64,
        ],
        Command::MakePermutationTable => seq![
            ArgKind::I64,
            ArgKind::Word,
            ArgKind::I64,
            ArgKind::Word,
        ],
        Command::DensitySingleChunk => seq![
            ArgKind::I64,
            ArgKind::F64,
            ArgKind::F64,
            ArgKind::F64,
            ArgKind::Word,
        ],
        Command::DensitySinglePoint => seq![
            ArgKind::I64,
            ArgKind::F64,
            ArgKind::F64,
            ArgKind::F64,
            ArgKind::I32,
            ArgKind::I32,
            ArgKind::I32,
            ArgKind::Word,
        ],
        Command::DensitySingleChunkAll => seq![
            ArgKind::I64,
            ArgKind::F64,
            ArgKind::F64,
            ArgKind::F64,
            ArgKind::Word,
        ],
        Command::XoroshiroNext => seq![ArgKind::I64, ArgKind::I64],
        Command::XoroshiroNextN => seq![ArgKind::I64, ArgKind::I64, ArgKind::I64],
        Command::XoroshiroSeedLong => seq![ArgKind::I64],
        Command::XoroshiroSeedStr => seq![ArgKind::Word],
    }
}

/// The arguments a command takes.
pub fn kinds_of(c: Command) -> (r: Vec<ArgKind>)
    ensures
        r@ == arg_kinds(c),
{
    let r = match c {
        Command::Ping => vec![],
        Command::Hermite => vec![ArgKind::F64, ArgKind::F64, ArgKind::F64, ArgKind::F64, ArgKind::F64],
        Command::Fade => vec![ArgKind::F64, ArgKind::F64, ArgKind::F64],
        Command::Clamp => vec![ArgKind::F64, ArgKind::F64, ArgKind::F64],
        Command::Abs => vec![ArgKind::F64],
        Command::Min => vec![ArgKind::F64, ArgKind::F64],
        Command::Max => vec![ArgKind::F64, ArgKind::F64],
        Command::SeededPerlin => vec![ArgKind::I64, ArgKind::F64, ArgKind::F64, ArgKind::F64],
        Command::Perlin => vec![ArgKind::F64, ArgKind::F64, ArgKind::F64],
        Command::DoublePerlin => vec![
            ArgKind::I64,
            ArgKind::Word,
            ArgKind::Word,
            ArgKind::F64,
            ArgKind::F64,
            ArgKind::F64,
        ],
        Command::DensityPoint => vec![
            ArgKind::I64,
            ArgKind::F64,
            ArgKind::F64,
            ArgKind::F64,
            ArgKind::F64,
            ArgKind::F64,
            ArgKind::F64,
            ArgKind::F64,
        ],
        Command::DensityChunk => vec![ArgKind::I64, ArgKind::F64, ArgKind::F64, ArgKind::F64],
        Command::DensityChunkAll => vec![
            ArgKind::I64,
            ArgKind::F64,
            ArgKind::F64,
            ArgKind::F64,
            ArgKind::F64,
        ],
        Command::MakePermutationTable => vec![
            ArgKind::I64,
            ArgKind::Word,
            ArgKind::I64,
            ArgKind::Word,
        ],
        Command::DensitySingleChunk => vec![
            ArgKind::I64,
            ArgKind::F64,
            ArgKind::F64,
            ArgKind::F64,
            ArgKind::Word,
        ],
        Command::DensitySinglePoint => vec![
            ArgKind::I64,
            ArgKind::F64,
            ArgKind::F64,
            ArgKind::F64,
            ArgKind::I32,
            ArgKind::I32,
            ArgKind::I32,
            ArgKind::Word,
        ],
        Command::DensitySingleChunkAll => vec![
            ArgKind::I64,
            ArgKind::F64,
            ArgKind::F64,
            ArgKind::F64,
            ArgKind::Word,
        ],
        Command::XoroshiroNext => vec![ArgKind::I64, ArgKind::I64],
        Command::XoroshiroNextN => vec![ArgKind::I64, ArgKind::I64, ArgKind::I64],
        Command::XoroshiroSeedLong => vec![ArgKind::I64],
        Command::XoroshiroSeedStr => vec![ArgKind::Word],
    };
    assert(r@ =~= arg_kinds(c));
    r
}

// ── Requests ─────────────────────────────────────────────────────────────────

/// A checked argument: integers parsed, floating-point words checked and
/// kept as written, other words as they are.
#[derive(Clone, Copy, Debug)]
pub enum ArgValue<'a> {
    I64(i64),
    U64(u64),
    I32(i32),
    F64(&'a str),
    Word(&'a str),
}

/// Model of a checked argument.
pub enum ArgModel {
    I64(i64),
    U64(u64),
    I32(i32),
    F64(Seq<char>),
    Word(Seq<char>),
}

impl<'a> View for ArgValue<'a> {
    type V = ArgModel;

    open spec fn view(&self) -> ArgModel {
        match self {
            ArgValue::I64(v) => ArgModel::I64(*v),
            ArgValue::U64(v) => ArgModel::U64(*v),
            ArgValue::I32(v) => ArgModel::I32(*v),
            ArgValue::F64(w) => ArgModel::F64(w@),
            ArgValue::Word(w) => ArgModel::Word(w@),
        }
    }
}

/// Why an argument was refused.
#[derive(Clone, Copy, Debug, PartialEq, Eq, Structural)]
pub enum ArgFault {
    Int(IntError),
    Float,
}

/// An argument of the given kind read from a word.
pub open spec fn arg_spec(kind: ArgKind, w: Seq<char>) -> Result<ArgModel, ArgFault> {
    match kind {
        ArgKind::I64 => match parse_int_spec(w, i64::MIN as int, i64::MAX as int, true) {
            Ok(v) => Ok(ArgModel::I64(v as i64)),
            Err(e) => Err(ArgFault::Int(e)),
        },
        ArgKind::U64 => match parse_int_spec(w, 0, u64::MAX as int, false) {
            Ok(v) => Ok(ArgModel::U64(v as u64)),
            Err(e) => Err(ArgFault::Int(e)),
        },
        ArgKind::I32 => match parse_int_spec(w, i32::MIN as int, i32::MAX as int, true) {
            Ok(v) => Ok(ArgModel::I32(v as i32)),
            Err(e) => Err(ArgFault::Int(e)),
        },
        ArgKind::F64 => if is_float_literal_spec(w) {
            Ok(ArgModel::F64(w))
        } else {
            Err(ArgFault::Float)
        },
        ArgKind::Word => Ok(ArgModel::Word(w)),
    }
}

/// The arguments from position `i` on, read in order; the first refused
/// one stops the reading.
pub open spec fn args_spec(kinds: Seq<ArgKind>, ws: Seq<Seq<char>>, i: nat) -> Result<
    Seq<ArgModel>,
    (nat, ArgFault),
>
    decreases kinds.len() - i,
{
    if i >= kinds.len() {
        Ok(Seq::empty())
    } else {
        match arg_spec(kinds[i as int], ws[i as int]) {
            Err(f) => Err((i, f)),
            Ok(a) => match args_spec(kinds, ws, i + 1) {
                Ok(rest) => Ok(seq![a] + rest),
                Err(e) => Err(e),
            },
        }
    }
}

/// Whether a checked argument is of the given kind.
pub open spec fn has_kind<'a>(a: ArgValue<'a>, kind: ArgKind) -> bool {
    match kind {
        ArgKind::I64 => a is I64,
        ArgKind::U64 => a is U64,
        ArgKind::I32 => a is I32,
        ArgKind::F64 => a is F64,
        ArgKind::Word => a is Word,
    }
}

/// Reads one argument.
fn read_arg<'a>(kind: ArgKind, w: &'a str) -> (r: Result<ArgValue<'a>, ArgFault>)
    ensures
        match arg_spec(kind, w@) {
            Ok(m) => r matches Ok(a) && a@ == m,
            Err(f) => r == Err::<ArgValue<'a>, ArgFault>(f),
        },
        r matches Ok(a) ==> has_kind(a, kind),
{
    match kind {
        ArgKind::I64 => match parse_i64(w) {
            Ok(v) => Ok(ArgValue::I64(v)),
            Err(e) => Err(ArgFault::Int(e)),
        },
        ArgKind::U64 => match parse_u64(w) {
            Ok(v) => Ok(ArgValue::U64(v)),
            Err(e) => Err(ArgFault::Int(e)),
        },
        ArgKind::I32 => match parse_i32(w) {
            Ok(v) => Ok(ArgValue::I32(v)),
            Err(e) => Err(ArgFault::Int(e)),
        },
        ArgKind::F64 => if is_float_literal(w) {
            Ok(ArgValue::F64(w))
        } else {
            Err(ArgFault::Float)
        },
        ArgKind::Word => Ok(ArgValue::Word(w)),
    }
}

/// The models of a list of arguments.
pub open spec fn args_view<'a>(args: Seq<ArgValue<'a>>) -> Seq<ArgModel> {
    args.map_values(|a: ArgValue<'a>| a@)
}

/// Reading from position `j` goes through the arguments already read
/// (positions `j..i`), then continues at `i`.
proof fn lemma_args_spec_prefix(
    kinds: Seq<ArgKind>,
    ws: Seq<Seq<char>>,
    ms: Seq<ArgModel>,
    j: nat,
    i: nat,
)
    requires
        j <= i <= kinds.len(),
        ms.len() == i,
        forall|k: int| j <= k < i ==> arg_spec(kinds[k], ws[k]) == Ok::<ArgModel, (ArgFault)>(#[trigger] ms[k]),
    ensures
        args_spec(kinds, ws, j) == match args_spec(kinds, ws, i) {
            Ok(rest) => Ok(ms.subrange(j as int, i as int) + rest),
            Err(e) => Err(e),
        },
    decreases i - j,
{
    if j < i {
        lemma_args_spec_prefix(kinds, ws, ms, j + 1, i);
        assert(arg_spec(kinds[j as int], ws[j as int]) == Ok::<ArgModel, ArgFault>(ms[j as int]));
        match args_spec(kinds, ws, i) {
            Ok(rest) => {
                assert(seq![ms[j as int]] + (ms.subrange(j + 1 as int, i as int) + rest) =~= ms.subrange(
                    j as int,
                    i as int,
                ) + rest);
            },
            Err(e) => {},
        }
    } else {
        match args_spec(kinds, ws, i) {
            Ok(rest) => {
                assert(ms.subrange(j as int, i as int) + rest =~= rest);
            },
            Err(e) => {},
        }
    }
}

/// A request that passed every check: the command and its arguments.
pub struct Request<'a> {
    pub command: Command,
    pub args: Vec<ArgValue<'a>>,
}

/// Why a request was refused.
#[derive(Debug)]
pub enum RequestError<'a> {
    /// The line holds no word.
    Empty,
    /// The first word names no command.
    UnknownFunction(&'a str),
    /// The command was given `got` arguments, not as many as it takes.
    ArgCount { command: Command, got: usize },
    /// Argument number `index` (counting from 0) was refused.
    BadArg { command: Command, index: usize, fault: ArgFault },
}

/// Model of the outcome of reading a request.
pub enum RequestModel {
    Accepted(Command, Seq<ArgModel>),
    Empty,
    UnknownFunction(Seq<char>),
    ArgCount(Command, nat),
    BadArg(Command, nat, ArgFault),
}

/// The outcome of reading a request made of the words `ws`.
pub open spec fn request_spec(ws: Seq<Seq<char>>) -> RequestModel {
    if ws.len() == 0 {
        RequestModel::Empty
    } else {
        match command_named(ws[0]) {
            None => RequestModel::UnknownFunction(ws[0]),
            Some(c) => {
                let args = ws.drop_first();
                if c == Command::Ping {
                    RequestModel::Accepted(c, Seq::empty())
                } else if args.len() != arg_kinds(c).len() {
                    RequestModel::ArgCount(c, args.len())
                } else {
                    match args_spec(arg_kinds(c), args, 0) {
                        Ok(ms) => RequestModel::Accepted(c, ms),
                        Err((i, f)) => RequestModel::BadArg(c, i, f),
                    }
                }
            },
        }
    }
}

/// Whether a request holds the arguments its command takes, of the right
/// kinds (a `ping` holds none).
pub open spec fn well_formed<'a>(req: Request<'a>) -> bool {
    &&& req.args@.len() == arg_kinds(req.command).len()
    &&& forall|k: int| 0 <= k < req.args@.len() ==> has_kind(#[trigger] req.args@[k], arg_kinds(req.command)[k])
}

/// The model of the outcome of `parse_request`.
pub open spec fn outcome_view<'a>(r: Result<Request<'a>, RequestError<'a>>) -> RequestModel {
    match r {
        Ok(req) => RequestModel::Accepted(req.command, args_view(req.args@)),
        Err(RequestError::Empty) => RequestModel::Empty,
        Err(RequestError::UnknownFunction(w)) => RequestModel::UnknownFunction(w@),
        Err(RequestError::ArgCount { command, got }) => RequestModel::ArgCount(command, got as nat),
        Err(RequestError::BadArg { command, index, fault }) => RequestModel::BadArg(
            command,
            index as nat,
            fault,
        ),
    }
}

/// Splits a request line into words and checks it: the first word must
/// name a command, and the rest must be the arguments it takes, each of the
/// right kind. The first failing check decides the error.
pub fn parse_request<'a>(line: &'a str) -> (r: Result<Request<'a>, RequestError<'a>>)
    ensures
        outcome_view(r) == request_spec(words(line@)),
        r matches Ok(req) ==> well_formed(req),
{
    let parts = split_whitespace(line);
    let ghost ws = words(line@);
    assert(parts@.len() == ws.len());
    if parts.len() == 0 {
        return Err(RequestError::Empty);
    }
    let name = parts[0];
    let command = match command_of(name) {
        None => {
            return Err(RequestError::UnknownFunction(name));
        },
        Some(c) => c,
    };
    if command == Command::Ping {
        let r = Request { command, args: Vec::new() };
        assert(args_view(r.args@) =~= Seq::<ArgModel>::empty());
        return Ok(r);
    }
    let kinds = kinds_of(command);
    let got = parts.len() - 1;
    let ghost rest = ws.drop_first();
    if got != kinds.len() {
        return Err(RequestError::ArgCount { command, got });
    }
    let mut args: Vec<ArgValue<'a>> = Vec::new();
    let mut i: usize = 0;
    while i < kinds.len()
        invariant
            i <= kinds.len() == got,
            got + 1 == parts@.len() == ws.len(),
            ws == words(line@),
            command_named(ws[0]) == Some(command),
            command != Command::Ping,
            kinds@ == arg_kinds(command),
            rest == ws.drop_first(),
            forall|k: int| 0 <= k < parts@.len() ==> (#[trigger] parts@[k])@ == ws[k],
            args@.len() == i,
            forall|k: int|
                0 <= k < i ==> arg_spec(kinds@[k], rest[k]) == Ok::<ArgModel, ArgFault>(
                    #[trigger] args_view(args@)[k],
                ),
            forall|k: int| 0 <= k < i ==> has_kind(#[trigger] args@[k], kinds@[k]),
        decreases kinds.len() - i,
    {
        let w = parts[i + 1];
        assert(w@ == rest[i as int]);
        match read_arg(kinds[i], w) {
            Ok(a) => {
                let ghost before = args@;
                args.push(a);
                assert(args_view(args@)[i as int] == a@);
                assert forall|k: int| 0 <= k < i implies #[trigger] args_view(args@)[k] == args_view(
                    before,
                )[k] by {}
            },
            Err(f) => {
                proof {
                    lemma_args_spec_prefix(kinds@, rest, args_view(args@), 0, i as nat);
                    assert(arg_spec(kinds@[i as int], rest[i as int]) == Err::<ArgModel, ArgFault>(f));
                    assert(args_spec(kinds@, rest, i as nat) == Err::<Seq<ArgModel>, (nat, ArgFault)>(
                        (i as nat, f),
                    ));
                }
                return Err(RequestError::BadArg { command, index: i, fault: f });
            },
        }
        i = i + 1;
    }
    proof {
        lemma_args_spec_prefix(kinds@, rest, args_view(args@), 0, i as nat);
        assert(args_view(args@).subrange(0, i as int) =~= args_view(args@));
        assert(args_view(args@) + Seq::<ArgModel>::empty() =~= args_view(args@));
    }
    Ok(Request { command, args })
}

// ── Answers ──────────────────────────────────────────────────────────────────

/// What the server answers to an accepted request, as far as it is computed
/// on integers.
pub enum Reply {
    /// `pong`.
    Pong,
    /// Integers, answered one after the other.
    Numbers(Vec<i64>),
    /// A permutation table and its origin draws.
    PermutationTable(Box<PerlinNoiseSampler>),
    /// The sampler of a seeded Perlin sample; the caller samples it.
    Sampler(Box<PerlinNoiseSampler>),
    /// The two octave tables of a double Perlin sample; the caller samples
    /// them.
    TablePair(Box<PerlinNoiseSampler>, Box<PerlinNoiseSampler>),
    /// A table could not be drawn here: some shuffle draw would need more
    /// than `MAX_REDRAWS` redraws.
    TableUnavailable,
    /// A command computed in floating point, answered by the caller.
    FloatCommand,
}

/// The integer argument at position `k`.
fn int_arg(args: &Vec<ArgValue>, k: usize) -> (v: i64)
    requires
        k < args@.len(),
        args@[k as int] is I64,
    ensures
        args@[k as int] == ArgValue::I64(v),
{
    match args[k] {
        ArgValue::I64(v) => v,
        _ => unreached(),
    }
}

/// The word argument at position `k`.
fn word_arg<'a>(args: &Vec<ArgValue<'a>>, k: usize) -> (w: &'a str)
    requires
        k < args@.len(),
        args@[k as int] is Word,
    ensures
        args@[k as int] == ArgValue::Word(w),
{
    match args[k] {
        ArgValue::Word(w) => w,
        _ => unreached(),
    }
}

/// The first `count` outputs of a generator seeded with `(lo, hi)`.
pub open spec fn outputs_from(lo: i64, hi: i64, count: nat) -> Seq<i64> {
    Seq::new(count, |k: int| xoro_out(xoro_iter(xoro_init(lo, hi), k as nat)))
}

/// The first `count` outputs of a generator seeded with `(lo, hi)`.
fn xoroshiro_outputs(lo: i64, hi: i64, count: usize) -> (r: Vec<i64>)
    ensures
        r@ == outputs_from(lo, hi, count as nat),
{
    let mut rng = Xoroshiro128PlusPlusRandom::new(lo, hi);
    let ghost start = rng;
    let mut out: Vec<i64> = Vec::new();
    let mut k: usize = 0;
    while k < count
        invariant
            k <= count,
            start == xoro_init(lo, hi),
            rng == xoro_iter(start, k as nat),
            out@ == outputs_from(lo, hi, k as nat),
        decreases count - k,
    {
        proof {
            lemma_xoro_iter_succ(start, k as nat);
        }
        let v = rng.next_raw();
        out.push(v);
        assert(out@ =~= outputs_from(lo, hi, (k + 1) as nat));
        k = k + 1;
    }
    out
}

/// The generator a seeded Perlin sampler is drawn from.
pub open spec fn perlin_seed_generator(seed: i64) -> Xoroshiro128PlusPlusRandom {
    xoro_init(mixed_seed(seed).seed_lo, mixed_seed(seed).seed_hi)
}

/// The generator of the table of a request with world seed `seed`, names
/// `a` and `b`, and `iteration_count` splitters discarded in between.
pub open spec fn named_table_generator(seed: i64, a: Seq<u8>, iteration_count: i64, b: Seq<u8>) -> Xoroshiro128PlusPlusRandom {
    table_generator(
        seed,
        name_seed(a).seed_lo,
        name_seed(a).seed_hi,
        iteration_count,
        name_seed(b).seed_lo,
        name_seed(b).seed_hi,
    )
}

/// The answer to an accepted request: `pong`; the outputs of a seeded
/// generator; the seed pairs of a world seed or of a name; a permutation
/// table; or, for the commands computed in floating point, the note that
/// the caller answers them.
pub fn respond(req: &Request) -> (r: Reply)
    requires
        well_formed(*req),
    ensures
        match req.command {
            Command::Ping => r is Pong,
            Command::XoroshiroNext => r matches Reply::Numbers(v) && v@ == outputs_from(
                args_view(req.args@)[0]->I64_0,
                args_view(req.args@)[1]->I64_0,
                1,
            ),
            Command::XoroshiroNextN => r matches Reply::Numbers(v) && v@ == outputs_from(
                args_view(req.args@)[0]->I64_0,
                args_view(req.args@)[1]->I64_0,
                (if args_view(req.args@)[2]->I64_0 < 0 {
                    0
                } else {
                    args_view(req.args@)[2]->I64_0
                }) as usize as nat,
            ),
            Command::XoroshiroSeedLong => r matches Reply::Numbers(v) && v@ == seq![
                mixed_seed(args_view(req.args@)[0]->I64_0).seed_lo,
                mixed_seed(args_view(req.args@)[0]->I64_0).seed_hi,
            ],
            Command::XoroshiroSeedStr => r matches Reply::Numbers(v) && v@ == seq![
                name_seed(req.args@[0]->Word_0.spec_bytes()).seed_lo,
                name_seed(req.args@[0]->Word_0.spec_bytes()).seed_hi,
            ],
            Command::MakePermutationTable => {
                let g = named_table_generator(
                    args_view(req.args@)[0]->I64_0,
                    req.args@[1]->Word_0.spec_bytes(),
                    args_view(req.args@)[2]->I64_0,
                    req.args@[3]->Word_0.spec_bytes(),
                );
                &&& r is PermutationTable || r is TableUnavailable
                &&& r is PermutationTable <==> sampler_draws_within(g, MAX_REDRAWS as nat)
                &&& r matches Reply::PermutationTable(s) ==> is_sampler_from(*s, g) && all_distinct(
                    s.permutation@,
                )
            },
            Command::SeededPerlin => {
                let g = perlin_seed_generator(args_view(req.args@)[0]->I64_0);
                &&& r is Sampler || r is TableUnavailable
                &&& r is Sampler <==> sampler_draws_within(g, MAX_REDRAWS as nat)
                &&& r matches Reply::Sampler(s) ==> is_sampler_from(*s, g) && all_distinct(
                    s.permutation@,
                )
            },
            Command::DoublePerlin => {
                let seed = args_view(req.args@)[0]->I64_0;
                let a = req.args@[1]->Word_0.spec_bytes();
                let b = req.args@[2]->Word_0.spec_bytes();
                let g0 = named_table_generator(seed, a, 0, b);
                let g1 = named_table_generator(seed, a, 1, b);
                &&& r is TablePair || r is TableUnavailable
                &&& r is TablePair <==> sampler_draws_within(g0, MAX_REDRAWS as nat)
                    && sampler_draws_within(g1, MAX_REDRAWS as nat)
                &&& r matches Reply::TablePair(s0, s1) ==> is_sampler_from(*s0, g0) && is_sampler_from(
                    *s1,
                    g1,
                )
            },
            _ => r is FloatCommand,
        },
{
    let args = &req.args;
    match req.command {
        Command::Ping => Reply::Pong,
        Command::XoroshiroNext => {
            let lo = int_arg(args, 0);
            let hi = int_arg(args, 1);
            Reply::Numbers(xoroshiro_outputs(lo, hi, 1))
        },
        Command::XoroshiroNextN => {
            let lo = int_arg(args, 0);
            let hi = int_arg(args, 1);
            let n = int_arg(args, 2);
            let count: usize = if n < 0 {
                0
            } else {
                n as usize
            };
            Reply::Numbers(xoroshiro_outputs(lo, hi, count))
        },
        Command::XoroshiroSeedLong => {
            let seed = create_xoroshiro_seed(int_arg(args, 0));
            Reply::Numbers(vec![seed.seed_lo, seed.seed_hi])
        },
        Command::XoroshiroSeedStr => {
            let seed = create_xoroshiro_seed_str(word_arg(args, 0));
            Reply::Numbers(vec![seed.seed_lo, seed.seed_hi])
        },
        Command::MakePermutationTable => {
            let seed = int_arg(args, 0);
            let s1 = create_xoroshiro_seed_str(word_arg(args, 1));
            let iteration_count = int_arg(args, 2);
            let s2 = create_xoroshiro_seed_str(word_arg(args, 3));
            match try_make_permutation_table(
                seed,
                s1.seed_lo,
                s1.seed_hi,
                iteration_count,
                s2.seed_lo,
                s2.seed_hi,
            ) {
                Some(table) => Reply::PermutationTable(table),
                None => Reply::TableUnavailable,
            }
        },
        Command::SeededPerlin => {
            let mut rng = Xoroshiro128PlusPlusRandom::from_seed(&create_xoroshiro_seed(int_arg(args, 0)));
            match try_create_perlin_noise_sampler(&mut rng, MAX_REDRAWS) {
                Some(s) => Reply::Sampler(Box::new(s)),
                None => Reply::TableUnavailable,
            }
        },
        Command::DoublePerlin => {
            let seed = int_arg(args, 0);
            let s1 = create_xoroshiro_seed_str(word_arg(args, 1));
            let s2 = create_xoroshiro_seed_str(word_arg(args, 2));
            let first = try_make_permutation_table(seed, s1.seed_lo, s1.seed_hi, 0, s2.seed_lo, s2.seed_hi);
            let second = try_make_permutation_table(seed, s1.seed_lo, s1.seed_hi, 1, s2.seed_lo, s2.seed_hi);
            match (first, second) {
                (Some(a), Some(b)) => Reply::TablePair(a, b),
                _ => Reply::TableUnavailable,
            }
        },
        _ => Reply::FloatCommand,
    }
}

} // verus!
