//! The command-line contract: `program <animationFile> <scriptNumber>`.
//!
//! Anything but exactly two arguments after the program name calls for a
//! usage message and no rendering; a script number that is not a decimal
//! number fitting the container's one-byte script ids calls for a parse
//! diagnostic. The animation file name itself is opaque here: the caller
//! hands it to its file loader untouched.

use vstd::prelude::*;

verus! {

/// What the program should do with its command line.
#[derive(Clone, Copy, Debug, PartialEq, Eq, Structural)]
pub enum CliOutcome {
    /// Wrong argument count: print the usage message to standard error
    /// and terminate without rendering.
    Usage,
    /// The script number did not parse: abort with a parse diagnostic.
    BadScriptNumber,
    /// Arguments are well-formed: play this script.
    Run { script: u8 },
}

/// An ASCII decimal digit.
pub open spec fn spec_is_digit(b: u8) -> bool {
    48 <= b <= 57
}

/// Every byte is an ASCII decimal digit.
pub open spec fn spec_all_digits(s: Seq<u8>) -> bool {
    forall|i: int| 0 <= i < s.len() ==> spec_is_digit(s[i])
}

/// The number a decimal digit string denotes.
pub open spec fn spec_dec_value(s: Seq<u8>) -> int
    decreases s.len(),
{
    if s.len() == 0 {
        0
    } else {
        spec_dec_value(s.drop_last()) * 10 + (s.last() - 48)
    }
}

/// A digit string denotes a number that is at least zero.
proof fn lemma_dec_value_nonneg(s: Seq<u8>)
    requires
        spec_all_digits(s),
    ensures
        spec_dec_value(s) >= 0,
    decreases s.len(),
{
    if s.len() > 0 {
        assert(spec_all_digits(s.drop_last()));
        lemma_dec_value_nonneg(s.drop_last());
    }
}

/// Reading more digits never makes the denoted number smaller: the value
/// of a prefix bounds the value of the whole string from below.
proof fn lemma_dec_value_prefix_le(s: Seq<u8>, i: int)
    requires
        spec_all_digits(s),
        0 <= i <= s.len(),
    ensures
        spec_dec_value(s.take(i)) <= spec_dec_value(s),
    decreases s.len() - i,
{
    if i == s.len() {
        assert(s.take(i) =~= s);
    } else {
        assert(s.take(i + 1).drop_last() =~= s.take(i));
        assert(spec_all_digits(s.take(i)));
        lemma_dec_value_nonneg(s.take(i));
        assert(spec_dec_value(s.take(i + 1)) == spec_dec_value(s.take(i)) * 10 + (s[i] - 48));
        lemma_dec_value_prefix_le(s, i + 1);
    }
}

/// Parse a script number: a nonempty string of decimal digits denoting a
/// value that fits the container's one-byte script ids. Anything else is
/// `None`.
pub fn parse_script_number(digits: &Vec<u8>) -> (r: Option<u8>)
    ensures
        r is Some <==> digits@.len() >= 1 && spec_all_digits(digits@) && spec_dec_value(digits@)
            <= 255,
        r matches Some(v) ==> v == spec_dec_value(digits@),
{
    if digits.len() == 0 {
        return None;
    }
    let mut acc: u32 = 0;
    let mut i: usize = 0;
    proof {
        assert(digits@.take(0) =~= Seq::<u8>::empty());
    }
    while i < digits.len()
        invariant
            0 <= i <= digits@.len(),
            spec_all_digits(digits@.take(i as int)),
            acc == spec_dec_value(digits@.take(i as int)),
            acc <= 255,
        decreases digits@.len() - i,
    {
        let b = digits[i];
        if b < 48 || b > 57 {
            return None;
        }
        proof {
            assert(digits@.take(i as int + 1).drop_last() =~= digits@.take(i as int));
        }
        let next: u32 = acc * 10 + (b - 48) as u32;
        if next > 255 {
            proof {
                if spec_all_digits(digits@) {
                    lemma_dec_value_prefix_le(digits@, i as int + 1);
                }
            }
            return None;
        }
        acc = next;
        i += 1;
    }
    proof {
        assert(digits@.take(digits@.len() as int) =~= digits@);
    }
    Some(acc as u8)
}

/// Decide what the program does with its command line: `arg_count` is the
/// full argument count, program name included, and `script_arg` is the
/// last argument's bytes. Exactly three arguments are required; the third
/// must be a decimal script number fitting one byte.
pub fn parse_command_line(arg_count: usize, script_arg: &Vec<u8>) -> (r: CliOutcome)
    ensures
        r is Usage <==> arg_count != 3,
        arg_count == 3 ==> ((r is BadScriptNumber) <==> !(script_arg@.len() >= 1
            && spec_all_digits(script_arg@) && spec_dec_value(script_arg@) <= 255)),
        arg_count == 3 && script_arg@.len() >= 1 && spec_all_digits(script_arg@)
            && spec_dec_value(script_arg@) <= 255 ==> r == (CliOutcome::Run {
            script: spec_dec_value(script_arg@) as u8,
        }),
{
    if arg_count != 3 {
        return CliOutcome::Usage;
    }
    match parse_script_number(script_arg) {
        Some(script) => CliOutcome::Run { script },
        None => CliOutcome::BadScriptNumber,
    }
}

} // verus!
