//! The text of the test server's answers that are computed without
//! floating point: `OK pong`, lists of integers, the signed end entries and
//! raw bytes of a permutation table, and every `ERR` answer to a request
//! that was refused.

use vstd::prelude::*;
use vstd::string::StringExecFns;
use crate::perlin::PerlinNoiseSampler;
use crate::protocol::{arg_kinds, kinds_of, ArgFault, Command, IntError, Reply, RequestError};

verus! {

/// The character of a decimal digit.
pub open spec fn digit_char(d: nat) -> char {
    if d == 0 {
        '0'
    } else if d == 1 {
        '1'
    } else if d == 2 {
        '2'
    } else if d == 3 {
        '3'
    } else if d == 4 {
        '4'
    } else if d == 5 {
        '5'
    } else if d == 6 {
        '6'
    } else if d == 7 {
        '7'
    } else if d == 8 {
        '8'
    } else {
        '9'
    }
}

/// The decimal digits of a natural number, most significant first, with
/// no leading zero.
pub open spec fn digits(n: nat) -> Seq<char>
    decreases n,
{
    if n < 10 {
        seq![digit_char(n)]
    } else {
        digits(n / 10).push(digit_char(n % 10))
    }
}

/// The decimal text of an integer: a minus sign before the digits of a
/// negative one.
pub open spec fn int_text(i: int) -> Seq<char> {
    if i < 0 {
        seq!['-'] + digits((-i) as nat)
    } else {
        digits(i as nat)
    }
}

/// Integers in decimal, separated by single spaces.
pub open spec fn joined(v: Seq<i64>) -> Seq<char>
    decreases v.len(),
{
    if v.len() == 0 {
        Seq::empty()
    } else if v.len() == 1 {
        int_text(v[0] as int)
    } else {
        joined(v.drop_last()) + seq![' '] + int_text(v.last() as int)
    }
}

/// The bytes of a table in decimal, each after a space.
pub open spec fn spaced_bytes(p: Seq<u8>) -> Seq<char>
    decreases p.len(),
{
    if p.len() == 0 {
        Seq::empty()
    } else {
        spaced_bytes(p.drop_last()) + seq![' '] + int_text(p.last() as int)
    }
}

/// The text of an answer computed on integers alone: `OK pong`, `OK` and
/// the integers separated by spaces, or the error of a table that could not
/// be drawn.
pub open spec fn reply_text(r: Reply) -> Option<Seq<char>> {
    match r {
        Reply::Pong => Some("OK pong"@),
        Reply::Numbers(v) => Some("OK "@ + joined(v@)),
        Reply::TableUnavailable => Some("ERR permutation table draws did not settle"@),
        _ => None,
    }
}

/// The integer part of a permutation table answer: the first and last
/// entries read as signed bytes, then every entry as an unsigned byte.
pub open spec fn table_tail(p: Seq<u8>) -> Seq<char>
    recommends
        p.len() == 256,
{
    "p0="@ + int_text((p[0] as i8) as int) + " p255="@ + int_text((p[255] as i8) as int)
        + spaced_bytes(p)
}

fn digit_str(d: u64) -> (r: &'static str)
    requires
        d < 10,
    ensures
        r@ == seq![digit_char(d as nat)],
{
    proof {
        reveal_strlit("0");
        reveal_strlit("1");
        reveal_strlit("2");
        reveal_strlit("3");
        reveal_strlit("4");
        reveal_strlit("5");
        reveal_strlit("6");
        reveal_strlit("7");
        reveal_strlit("8");
        reveal_strlit("9");
    }
    if d == 0 {
        "0"
    } else if d == 1 {
        "1"
    } else if d == 2 {
        "2"
    } else if d == 3 {
        "3"
    } else if d == 4 {
        "4"
    } else if d == 5 {
        "5"
    } else if d == 6 {
        "6"
    } else if d == 7 {
        "7"
    } else if d == 8 {
        "8"
    } else {
        "9"
    }
}

/// Appends the decimal digits of `n`.
fn push_digits(s: &mut String, n: u64)
    ensures
        final(s)@ == old(s)@ + digits(n as nat),
    decreases n,
{
    if n >= 10 {
        push_digits(s, n / 10);
    }
    s.append(digit_str(n % 10));
    proof {
        if n < 10 {
            assert(old(s)@ + digits(n as nat) =~= old(s)@ + seq![digit_char(n as nat)]);
        } else {
            assert(old(s)@ + digits(n as nat) =~= old(s)@ + digits((n / 10) as nat) + seq![
                digit_char((n % 10) as nat),
            ]);
        }
    }
}

/// Appends the decimal text of `i`.
fn push_int(s: &mut String, i: i64)
    ensures
        final(s)@ == old(s)@ + int_text(i as int),
{
    if i < 0 {
        proof {
            reveal_strlit("-");
        }
        s.append("-");
        let m = (-(i as i128)) as u64;
        push_digits(s, m);
        assert(old(s)@ + int_text(i as int) =~= old(s)@ + seq!['-'] + digits(m as nat));
    } else {
        push_digits(s, i as u64);
    }
}

/// The text of an answer computed on integers alone (see `reply_text`);
/// `None` for the other answers.
pub fn integer_reply_text(r: &Reply) -> (t: Option<String>)
    ensures
        match reply_text(*r) {
            Some(text) => t matches Some(s) && s@ == text,
            None => t is None,
        },
{
    match r {
        Reply::Pong => Some(String::from_str("OK pong")),
        Reply::TableUnavailable => Some(String::from_str("ERR permutation table draws did not settle")),
        Reply::Numbers(v) => {
            let mut s = String::from_str("OK ");
            let ghost start = s@;
            let mut i: usize = 0;
            while i < v.len()
                invariant
                    i <= v.len(),
                    s@ == start + joined(v@.subrange(0, i as int)),
                decreases v.len() - i,
            {
                let ghost before = s@;
                if i > 0 {
                    proof {
                        reveal_strlit(" ");
                    }
                    s.append(" ");
                }
                push_int(&mut s, v[i]);
                proof {
                    let pre = v@.subrange(0, i as int);
                    let next = v@.subrange(0, i + 1);
                    assert(next.drop_last() =~= pre);
                    assert(next.last() == v@[i as int]);
                    if i == 0 {
                        assert(pre =~= Seq::<i64>::empty());
                        assert(s@ =~= start + joined(next));
                    } else {
                        assert(s@ =~= start + joined(next));
                    }
                }
                i = i + 1;
            }
            assert(v@.subrange(0, v@.len() as int) =~= v@);
            Some(s)
        },
        _ => None,
    }
}

/// The integer part of a permutation table answer (see `table_tail`).
pub fn table_tail_text(t: &PerlinNoiseSampler) -> (s: String)
    ensures
        s@ == table_tail(t.permutation@),
{
    let p = &t.permutation;
    let mut s = String::from_str("p0=");
    push_int(&mut s, (p[0] as i8) as i64);
    s.append(" p255=");
    push_int(&mut s, (p[255] as i8) as i64);
    let ghost head = s@;
    let mut i: usize = 0;
    while i < 256
        invariant
            i <= 256,
            p@.len() == 256,
            s@ == head + spaced_bytes(p@.subrange(0, i as int)),
        decreases 256 - i,
    {
        proof {
            reveal_strlit(" ");
        }
        s.append(" ");
        push_int(&mut s, p[i] as i64);
        proof {
            let pre = p@.subrange(0, i as int);
            let next = p@.subrange(0, i + 1);
            assert(next.drop_last() =~= pre);
            assert(next.last() == p@[i as int]);
            assert(s@ =~= head + spaced_bytes(next));
        }
        i = i + 1;
    }
    assert(p@.subrange(0, 256) =~= p@);
    assert(head =~= "p0="@ + int_text((p@[0] as i8) as int) + " p255="@ + int_text(
        (p@[255] as i8) as int,
    ));
    s
}

// ── Errors ───────────────────────────────────────────────────────────────────

/// Why a word is not an integer, in the words of the standard library.
pub open spec fn int_error_words(e: IntError) -> Seq<char> {
    match e {
        IntError::Empty => "cannot parse integer from empty string"@,
        IntError::InvalidDigit => "invalid digit found in string"@,
        IntError::PosOverflow => "number too large to fit in target type"@,
        IntError::NegOverflow => "number too small to fit in target type"@,
    }
}

/// Why an argument was refused.
pub open spec fn fault_words(f: ArgFault) -> Seq<char> {
    match f {
        ArgFault::Int(e) => int_error_words(e),
        ArgFault::Float => "invalid float literal"@,
    }
}

/// How many arguments a command takes, as its error answer says it.
pub open spec fn count_words(c: Command) -> Seq<char> {
    match c {
        Command::DoublePerlin => "6 args (seed seed1_name seed2_name x y z)"@,
        Command::SeededPerlin => "4 args (seed x y z)"@,
        Command::MakePermutationTable => "4 args (seed seed1_name iter_count seed2_name)"@,
        Command::DensitySingleChunk => "5 args (seed ox oy oz density_name)"@,
        Command::DensitySingleChunkAll => "5 args (seed ox oy oz density_name)"@,
        Command::DensitySinglePoint => "8 args (seed ox oy oz px py pz density_name)"@,
        Command::XoroshiroSeedStr => "1 arg (name)"@,
        _ => digits(arg_kinds(c).len()) + " args"@,
    }
}

/// The name an error answer gives argument `index` of a command, if any.
pub open spec fn arg_label(c: Command, index: nat) -> Option<Seq<char>> {
    match c {
        Command::DensityPoint | Command::DensityChunk | Command::DensityChunkAll
        | Command::DoublePerlin => if index == 0 {
            Some("seed"@)
        } else {
            None
        },
        Command::MakePermutationTable => if index == 0 {
            Some("seed"@)
        } else if index == 2 {
            Some("iter_count"@)
        } else {
            None
        },
        Command::DensitySingleChunk | Command::DensitySingleChunkAll | Command::DensitySinglePoint =>
            if index == 0 {
            Some("seed"@)
        } else if index == 1 {
            Some("ox"@)
        } else if index == 2 {
            Some("oy"@)
        } else if index == 3 {
            Some("oz"@)
        } else if index == 4 {
            Some("px"@)
        } else if index == 5 {
            Some("py"@)
        } else if index == 6 {
            Some("pz"@)
        } else {
            None
        },
        _ => None,
    }
}

/// The answer to a refused request.
pub open spec fn error_text<'a>(e: RequestError<'a>) -> Seq<char> {
    match e {
        RequestError::Empty => "ERR empty command"@,
        RequestError::UnknownFunction(name) => "ERR unknown function: "@ + name@,
        RequestError::ArgCount { command, got } => "ERR expected "@ + count_words(command)
            + ", got "@ + digits(got as nat),
        RequestError::BadArg { command, index, fault } => "ERR arg "@ + digits(index as nat) + (
        match arg_label(command, index as nat) {
            Some(l) => " ("@ + l + ")"@,
            None => Seq::empty(),
        }) + " parse error: "@ + fault_words(fault),
    }
}

fn fault_str(f: ArgFault) -> (r: &'static str)
    ensures
        r@ == fault_words(f),
{
    match f {
        ArgFault::Int(IntError::Empty) => "cannot parse integer from empty string",
        ArgFault::Int(IntError::InvalidDigit) => "invalid digit found in string",
        ArgFault::Int(IntError::PosOverflow) => "number too large to fit in target type",
        ArgFault::Int(IntError::NegOverflow) => "number too small to fit in target type",
        ArgFault::Float => "invalid float literal",
    }
}

fn label_str(c: Command, index: usize) -> (r: Option<&'static str>)
    ensures
        match arg_label(c, index as nat) {
            Some(l) => r matches Some(t) && t@ == l,
            None => r is None,
        },
{
    match c {
        Command::DensityPoint | Command::DensityChunk | Command::DensityChunkAll
        | Command::DoublePerlin => if index == 0 {
            Some("seed")
        } else {
            None
        },
        Command::MakePermutationTable => if index == 0 {
            Some("seed")
        } else if index == 2 {
            Some("iter_count")
        } else {
            None
        },
        Command::DensitySingleChunk | Command::DensitySingleChunkAll | Command::DensitySinglePoint =>
            if index == 0 {
            Some("seed")
        } else if index == 1 {
            Some("ox")
        } else if index == 2 {
            Some("oy")
        } else if index == 3 {
            Some("oz")
        } else if index == 4 {
            Some("px")
        } else if index == 5 {
            Some("py")
        } else if index == 6 {
            Some("pz")
        } else {
            None
        },
        _ => None,
    }
}

/// Appends how many arguments a command takes.
fn push_count(s: &mut String, c: Command)
    ensures
        final(s)@ == old(s)@ + count_words(c),
{
    match c {
        Command::DoublePerlin => s.append("6 args (seed seed1_name seed2_name x y z)"),
        Command::SeededPerlin => s.append("4 args (seed x y z)"),
        Command::MakePermutationTable => s.append("4 args (seed seed1_name iter_count seed2_name)"),
        Command::DensitySingleChunk => s.append("5 args (seed ox oy oz density_name)"),
        Command::DensitySingleChunkAll => s.append("5 args (seed ox oy oz density_name)"),
        Command::DensitySinglePoint => s.append("8 args (seed ox oy oz px py pz density_name)"),
        Command::XoroshiroSeedStr => s.append("1 arg (name)"),
        _ => {
            let n = kinds_of(c).len();
            push_digits(s, n as u64);
            s.append(" args");
            assert(final(s)@ =~= old(s)@ + (digits(arg_kinds(c).len()) + " args"@));
        },
    }
}

/// The answer to a refused request (see `error_text`).
pub fn error_reply_text(e: &RequestError) -> (r: String)
    ensures
        r@ == error_text(*e),
{
    match e {
        RequestError::Empty => String::from_str("ERR empty command"),
        RequestError::UnknownFunction(name) => {
            let mut s = String::from_str("ERR unknown function: ");
            s.append(name);
            s
        },
        RequestError::ArgCount { command, got } => {
            let mut s = String::from_str("ERR expected ");
            push_count(&mut s, *command);
            s.append(", got ");
            push_digits(&mut s, *got as u64);
            s
        },
        RequestError::BadArg { command, index, fault } => {
            let mut s = String::from_str("ERR arg ");
            push_digits(&mut s, *index as u64);
            let ghost head = s@;
            match label_str(*command, *index) {
                Some(l) => {
                    s.append(" (");
                    s.append(l);
                    s.append(")");
                    assert(s@ =~= head + (" ("@ + l@ + ")"@));
                },
                None => {
                    assert(s@ =~= head + Seq::<char>::empty());
                },
            }
            s.append(" parse error: ");
            s.append(fault_str(*fault));
            s
        },
    }
}

/// How many density outputs a density request may select from.
pub const NUM_OUTPUTS: usize = 17;

/// The answer refusing a density request whose output index is out of
/// range, if it is.
pub open spec fn output_index_text(index: nat) -> Option<Seq<char>> {
    if index < NUM_OUTPUTS {
        None
    } else {
        Some("ERR output_idx must be 0-16, got "@ + digits(index))
    }
}

/// Checks the output index of a density request: `None` when it selects
/// one of the outputs, else the answer refusing the request.
pub fn output_index_reply(index: usize) -> (r: Option<String>)
    ensures
        match output_index_text(index as nat) {
            None => r is None,
            Some(t) => r matches Some(s) && s@ == t,
        },
{
    if index < NUM_OUTPUTS {
        None
    } else {
        let mut s = String::from_str("ERR output_idx must be 0-16, got ");
        push_digits(&mut s, index as u64);
        Some(s)
    }
}

} // verus!
