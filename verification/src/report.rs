//! The text of every diagnostic the tool can print: read, write and
//! substitution failures, the argument-count mismatch, and the usage banner.
//! Each builder's result is pinned, character for character, by a spec
//! function.

use vstd::prelude::*;

verus! {

/// Relies on `alloc::string::String::push_str`: appends the given string
/// slice onto the end of this `String`.
pub assume_specification[ String::push_str ](s: &mut String, other: &str)
    ensures
        final(s)@ == old(s)@ + other@,
;

/// Relies on `alloc::string::String::push`: appends the given char to the
/// end of this `String`.
pub assume_specification[ String::push ](s: &mut String, c: char)
    ensures
        final(s)@ == old(s)@.push(c),
;

/// The character for a single decimal digit.
pub open spec fn decimal_digit(d: nat) -> char {
    if d == 0 {
        '0'
    } else if d == 1 {
        '1'
    } else if d == 2 {
        '2'
    } else if d == 3 {
        '3'
    } else if d == 4 {
        '4'
    } else if d == 5 {
        '5'
    } else if d == 6 {
        '6'
    } else if d == 7 {
        '7'
    } else if d == 8 {
        '8'
    } else {
        '9'
    }
}

/// The usual decimal rendering of a natural number: most significant digit
/// first, no leading zeros (except for zero itself).
pub open spec fn decimal_of(n: nat) -> Seq<char>
    decreases n,
{
    if n < 10 {
        seq![decimal_digit(n)]
    } else {
        decimal_of(n / 10).push(decimal_digit(n % 10))
    }
}

fn digit_char(d: usize) -> (c: char)
    requires
        d < 10,
    ensures
        c == decimal_digit(d as nat),
{
    if d == 0 {
        '0'
    } else if d == 1 {
        '1'
    } else if d == 2 {
        '2'
    } else if d == 3 {
        '3'
    } else if d == 4 {
        '4'
    } else if d == 5 {
        '5'
    } else if d == 6 {
        '6'
    } else if d == 7 {
        '7'
    } else if d == 8 {
        '8'
    } else {
        '9'
    }
}

fn push_decimal(s: &mut String, n: usize)
    ensures
        final(s)@ == old(s)@ + decimal_of(n as nat),
    decreases n,
{
    if n >= 10 {
        push_decimal(s, n / 10);
    }
    let d = digit_char(n % 10);
    s.push(d);
    proof {
        if n < 10 {
            assert(old(s)@ + decimal_of(n as nat) =~= old(s)@.push(decimal_digit(n as nat)));
        } else {
            assert(old(s)@ + decimal_of(n as nat) =~= (old(s)@ + decimal_of(n as nat / 10)).push(
                decimal_digit(n as nat % 10),
            ));
        }
    }
}

/// The diagnostic for an input file that could not be read.
pub open spec fn read_failure_text(path: Seq<char>, detail: Seq<char>) -> Seq<char> {
    "failed to read from file '"@ + path + "': "@ + detail
}

/// The diagnostic for an output file that could not be written.
pub open spec fn write_failure_text(path: Seq<char>, detail: Seq<char>) -> Seq<char> {
    "failed to write to file '"@ + path + "': "@ + detail
}

/// The diagnostic for a pattern that failed to compile.
pub open spec fn replace_failure_text(detail: Seq<char>) -> Seq<char> {
    "failed to replace text: "@ + detail
}

/// The diagnostic for a wrong number of command-line arguments.
pub open spec fn count_mismatch_text(received: nat) -> Seq<char> {
    "wrong number of arguments: expected 4, got "@ + decimal_of(received) + "."@
}

pub fn read_error_message(path: &str, detail: &str) -> (r: String)
    ensures
        r@ == read_failure_text(path@, detail@),
{
    let mut r = String::new();
    r.push_str("failed to read from file '");
    r.push_str(path);
    r.push_str("': ");
    r.push_str(detail);
    proof {
        assert(r@ =~= read_failure_text(path@, detail@));
    }
    r
}

pub fn write_error_message(path: &str, detail: &str) -> (r: String)
    ensures
        r@ == write_failure_text(path@, detail@),
{
    let mut r = String::new();
    r.push_str("failed to write to file '");
    r.push_str(path);
    r.push_str("': ");
    r.push_str(detail);
    proof {
        assert(r@ =~= write_failure_text(path@, detail@));
    }
    r
}

pub fn replace_error_message(detail: &str) -> (r: String)
    ensures
        r@ == replace_failure_text(detail@),
{
    let mut r = String::new();
    r.push_str("failed to replace text: ");
    r.push_str(detail);
    proof {
        assert(r@ =~= replace_failure_text(detail@));
    }
    r
}

pub fn count_mismatch_message(received: usize) -> (r: String)
    ensures
        r@ == count_mismatch_text(received as nat),
{
    let mut r = String::new();
    r.push_str("wrong number of arguments: expected 4, got ");
    push_decimal(&mut r, received);
    r.push_str(".");
    proof {
        assert(r@ =~= count_mismatch_text(received as nat));
    }
    r
}

} // verus!
