//! The single-instance lock: the process id written into the lock file and
//! read back from it.
//!
//! Taking the lock (a named mutex on Windows, a file lock elsewhere) is the
//! application's work; the lock file's text is decided here.
use vstd::prelude::*;
use crate::text::{
    chars_of, dec_digits, is_white_space, lemma_dec_digits_value, lemma_parse_u32_of_digits,
    parse_u32, parse_u32_spec, push_decimal, trim_chars, trim_end_spec, trim_spec, trim_start_spec,
};

verus! {

/// The text written into the lock file: the process id in decimal.
pub fn lock_file_text(pid: u32) -> (r: String)
    ensures
        r@ == dec_digits(pid as nat),
{
    let mut s = String::new();
    push_decimal(&mut s, pid as u64);
    assert(s@ =~= dec_digits(pid as nat));
    s
}

/// The process id held by a lock file's text: the text without surrounding
/// white space, read as an unsigned number.
pub fn read_existing_pid(contents: &str) -> (r: Option<u32>)
    ensures
        r == parse_u32_spec(trim_spec(contents@)),
{
    let chars = chars_of(contents);
    let trimmed = trim_chars(&chars);
    parse_u32(&trimmed)
}

/// A process id written into the lock file reads back as itself.
pub proof fn lemma_lock_text_round_trip(pid: u32)
    ensures
        parse_u32_spec(trim_spec(dec_digits(pid as nat))) == Some(pid),
{
    let d = dec_digits(pid as nat);
    lemma_dec_digits_value(pid as nat);
    assert(!is_white_space(d[0]));
    assert(trim_start_spec(d) == d);
    assert(!is_white_space(d.last()));
    assert(trim_end_spec(d) == d);
    lemma_parse_u32_of_digits(pid);
}

} // verus!
