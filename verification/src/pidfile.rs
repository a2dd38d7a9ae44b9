//! The PID file that lets a restarted manager find a server it started
//! earlier: its name, what is written to it, and how it is read back.
use vstd::prelude::*;
use crate::text::{
    chars_of, decimal, lemma_parse_decimal_u32, lemma_decimal_digits, lemma_trim_unchanged,
    parse_u32, parse_u32_range, push_decimal, trim, trim_bounds, is_digit,
};

verus! {

broadcast use vstd::string::group_string_axioms;

/// Name of the PID file, kept next to the manager's binary.
pub const PID_FILE_NAME: &'static str = "windrose-server.pid";

/// The contents written to the PID file: the PID in decimal.
pub fn pid_file_text(pid: u32) -> (r: String)
    ensures
        r@ == decimal(pid as nat),
{
    let mut s = String::new();
    push_decimal(&mut s, pid as u64);
    s
}

/// The PID a PID file names: its trimmed contents parsed as a `u32`, or
/// `None` when they are not one.
pub fn parse_pid_file(text: &str) -> (r: Option<u32>)
    ensures
        r == parse_u32(trim(text@)),
{
    let v = chars_of(text);
    let (a, b) = trim_bounds(v.as_slice(), 0, v.len());
    assert(v@.subrange(0, v@.len() as int) =~= v@);
    parse_u32_range(v.as_slice(), a, b)
}

/// Reading a PID file gives back the PID that was written to it.
pub proof fn law_pid_file_round_trip(pid: u32)
    ensures
        parse_u32(trim(decimal(pid as nat))) == Some(pid),
{
    lemma_decimal_digits(pid as nat);
    let d = decimal(pid as nat);
    assert(is_digit(d[0]));
    assert(is_digit(d.last()));
    lemma_trim_unchanged(d);
    lemma_parse_decimal_u32(pid);
}

/// Arguments of `taskkill` that force-stop process `pid` (Windows).
pub fn taskkill_args(pid: u32) -> (r: Vec<String>)
    ensures
        r@.len() == 3,
        r@[0]@ == "/F"@,
        r@[1]@ == "/PID"@,
        r@[2]@ == decimal(pid as nat),
{
    let mut v: Vec<String> = Vec::new();
    v.push("/F".to_string());
    v.push("/PID".to_string());
    v.push(pid_file_text(pid));
    v
}

/// Arguments of `kill` that force-stop process `pid` (elsewhere).
pub fn kill_args(pid: u32) -> (r: Vec<String>)
    ensures
        r@.len() == 2,
        r@[0]@ == "-9"@,
        r@[1]@ == decimal(pid as nat),
{
    let mut v: Vec<String> = Vec::new();
    v.push("-9".to_string());
    v.push(pid_file_text(pid));
    v
}

} // verus!
